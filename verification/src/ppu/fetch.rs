//! Turning VRAM contents into pixels.
//!
//! # How a tile is stored
//!
//! Everything on screen is built from 8x8 tiles. A tile is 16 bytes: two bytes per
//! row, and the two bits of a pixel are split across them — the *low* bit of the
//! colour comes from the first byte, the *high* bit from the second, both at the
//! same bit position. So a pixel is assembled by taking one bit from each byte
//! rather than reading a nibble.
//!
//! Bit 7 is the leftmost pixel, so the byte reads in the same order as the pixels.
//!
//! # How a colour becomes a shade
//!
//! A pixel's two bits are an *index*, not a colour. The palette register packs four
//! 2-bit shades, index 0 in the low bits. Games animate palettes to fade the screen
//! without touching a single tile.
//!
//! Index 0 is special for sprites: it means transparent, and is never drawn.
//!
//! # Which sprite wins a pixel
//!
//! On a DMG the sprite with the smaller X wins, and OAM order breaks ties. A sprite
//! only claims a pixel where its colour is not 0 and, if it is flagged to sit behind
//! the background, where the background shows colour 0. So each pixel shows the
//! first claimant in (X, OAM index) order among the (at most ten) sprites on the
//! line, or the background if none claims it: [`PpuModel::sprite_winner`].
use vstd::prelude::*;
use super::{Ppu, PpuModel, Shade};

verus! {

/// A sprite as stored in OAM: 4 bytes.
#[derive(Clone, Copy)]
pub struct Sprite {
    /// Screen Y position, offset by 16 so sprites can scroll off the top.
    pub y: i16,
    /// Screen X position, offset by 8 so sprites can scroll off the left.
    pub x: i16,
    pub tile: u8,
    pub flags: u8,
    /// Position in OAM, which breaks priority ties.
    pub index: usize,
}

impl Sprite {
    /// Drawn behind background colours 1-3 when set.
    pub open spec fn behind_background_spec(self) -> bool {
        self.flags & 0x80 != 0
    }

    pub open spec fn flip_y_spec(self) -> bool {
        self.flags & 0x40 != 0
    }

    pub open spec fn flip_x_spec(self) -> bool {
        self.flags & 0x20 != 0
    }

    /// Which of the two sprite palettes to use.
    pub open spec fn uses_obp1_spec(self) -> bool {
        self.flags & 0x10 != 0
    }

    /// Whether `self` is drawn in front of `other` where both claim a pixel.
    pub open spec fn precedes(self, other: Sprite) -> bool {
        self.x < other.x || (self.x == other.x && self.index < other.index)
    }

    fn behind_background(&self) -> (r: bool)
        ensures
            r == self.behind_background_spec(),
    {
        self.flags & 0x80 != 0
    }

    fn flip_y(&self) -> (r: bool)
        ensures
            r == self.flip_y_spec(),
    {
        self.flags & 0x40 != 0
    }

    fn flip_x(&self) -> (r: bool)
        ensures
            r == self.flip_x_spec(),
    {
        self.flags & 0x20 != 0
    }

    fn uses_obp1(&self) -> (r: bool)
        ensures
            r == self.uses_obp1_spec(),
    {
        self.flags & 0x10 != 0
    }
}

/// A palette register applied to a 2-bit colour index.
pub open spec fn shade_spec(palette: u8, colour: u8) -> u8 {
    (palette >> ((2 * colour) as u8)) & 0x03
}

/// The colour index of the pixel `column` (0 leftmost) of a tile row stored as the
/// bytes `low` and `high`.
pub open spec fn pixel_bits(low: u8, high: u8, column: int) -> u8 {
    let bit = (7 - column) as u8;
    ((low >> bit) & 1) | (((high >> bit) & 1) << 1u8)
}

/// The colour index at `column` of row `row` of the tile stored at VRAM offset
/// `tile_address`.
pub open spec fn tile_pixel(vram: Seq<u8>, tile_address: int, row: int, column: int) -> u8 {
    pixel_bits(
        vram[(tile_address + 2 * row) % 0x2000],
        vram[(tile_address + 2 * row + 1) % 0x2000],
        column,
    )
}

/// The sprite in OAM slot `index`.
pub open spec fn oam_sprite(oam: Seq<u8>, index: int) -> Sprite {
    Sprite {
        y: (oam[4 * index] - 16) as i16,
        x: (oam[4 * index + 1] - 8) as i16,
        tile: oam[4 * index + 2],
        flags: oam[4 * index + 3],
        index: index as usize,
    }
}

/// Whether a sprite `height` lines tall covers screen line `line`.
pub open spec fn on_line(sprite: Sprite, line: int, height: int) -> bool {
    sprite.y <= line < sprite.y + height
}

/// The sprites the OAM scan keeps from the first `n` slots: those on `line`, in OAM
/// order, at most ten.
pub open spec fn line_sprites(oam: Seq<u8>, line: int, height: int, n: int) -> Seq<Sprite>
    decreases n,
{
    if n <= 0 {
        Seq::empty()
    } else {
        let earlier = line_sprites(oam, line, height, n - 1);
        let sprite = oam_sprite(oam, n - 1);
        if earlier.len() < 10 && on_line(sprite, line, height) {
            earlier.push(sprite)
        } else {
            earlier
        }
    }
}

impl PpuModel {
    /// The VRAM offset of tile number `tile` for the background and window.
    ///
    /// Unsigned addressing puts tile 0 at 0x8000. Signed addressing reads the number
    /// as an `i8` relative to 0x9000, so negative numbers reach back to 0x8800.
    pub open spec fn tile_address_spec(self, tile: u8) -> u16 {
        if self.signed_tile_addressing() {
            if tile < 128 {
                (0x1000 + 16 * tile) as u16
            } else {
                (0x1000 + 16 * (tile - 256)) as u16
            }
        } else {
            (16 * tile) as u16
        }
    }

    /// One pixel of a tile map; `x` and `y` are in map space (0-255).
    pub open spec fn map_pixel_spec(self, map_base: int, x: int, y: int) -> u8 {
        let tile = self.vram[(map_base + (y / 8) * 32 + x / 8) % 0x2000];
        tile_pixel(self.vram, self.tile_address_spec(tile) as int, y % 8, x % 8)
    }

    /// Whether the window shows on this line at all.
    pub open spec fn window_visible(self) -> bool {
        self.window_enabled() && self.ly >= self.wy
    }

    /// Whether the window covers screen column `x` (WX is stored offset by 7).
    pub open spec fn window_here(self, x: int) -> bool {
        self.window_visible() && x >= self.wx - 7
    }

    /// Whether drawing this line shows any of the window.
    pub open spec fn window_drawn(self) -> bool {
        self.window_visible() && self.wx - 7 < 160
    }

    /// The background (or window) colour index at column `x` of line LY.
    pub open spec fn bg_colour(self, x: int) -> u8 {
        if self.window_here(x) {
            self.map_pixel_spec(
                self.window_map_base() as int,
                x - (self.wx - 7),
                self.window_line as int,
            )
        } else {
            self.map_pixel_spec(
                self.bg_map_base() as int,
                (x + self.scx) % 256,
                (self.ly + self.scy) % 256,
            )
        }
    }

    pub open spec fn sprite_height(self) -> int {
        if self.tall_sprites() {
            16
        } else {
            8
        }
    }

    /// The sprites on line LY, as the OAM scan finds them.
    pub open spec fn visible_sprites(self) -> Seq<Sprite> {
        line_sprites(self.oam, self.ly as int, self.sprite_height(), 40)
    }

    /// The row of its tile data a sprite shows on line LY.
    pub open spec fn sprite_row(self, sprite: Sprite) -> int {
        let row = self.ly - sprite.y;
        if sprite.flip_y_spec() {
            self.sprite_height() - 1 - row
        } else {
            row
        }
    }

    /// The tile a sprite draws `row` from; a tall sprite is two stacked tiles, with
    /// bit 0 of its tile number ignored.
    pub open spec fn sprite_tile(self, sprite: Sprite, row: int) -> u8 {
        if self.tall_sprites() {
            ((sprite.tile & 0xFE) + (if row >= 8 {
                1int
            } else {
                0int
            })) as u8
        } else {
            sprite.tile
        }
    }

    /// The colour index a sprite on line LY has at screen column `x`.
    pub open spec fn sprite_colour(self, sprite: Sprite, x: int) -> u8 {
        let row = self.sprite_row(sprite);
        let offset = x - sprite.x;
        let column = if sprite.flip_x_spec() {
            7 - offset
        } else {
            offset
        };
        tile_pixel(self.vram, 16 * self.sprite_tile(sprite, row), row % 8, column)
    }

    /// Whether a sprite claims screen column `x` over a background of colour `bg`.
    pub open spec fn sprite_claims(self, sprite: Sprite, x: int, bg: u8) -> bool {
        &&& sprite.x <= x < sprite.x + 8
        &&& self.sprite_colour(sprite, x) != 0
        &&& !(sprite.behind_background_spec() && bg != 0)
    }

    /// The claimant of column `x` that comes first in (X, OAM index) order.
    pub open spec fn sprite_winner(self, sprites: Seq<Sprite>, x: int, bg: u8) -> Option<Sprite>
        decreases sprites.len(),
    {
        if sprites.len() == 0 {
            None
        } else {
            let best = self.sprite_winner(sprites.drop_last(), x, bg);
            let sprite = sprites.last();
            if self.sprite_claims(sprite, x, bg) && (best is None || sprite.precedes(
                best.unwrap(),
            )) {
                Some(sprite)
            } else {
                best
            }
        }
    }

    pub open spec fn sprite_palette(self, sprite: Sprite) -> u8 {
        if sprite.uses_obp1_spec() {
            self.obp1
        } else {
            self.obp0
        }
    }

    /// The shade pixel `x` of line LY ends up with.
    pub open spec fn line_pixel(self, x: int) -> u8 {
        let bg = if self.bg_enabled() {
            self.bg_colour(x)
        } else {
            0
        };
        let base = if self.bg_enabled() {
            shade_spec(self.bgp, bg)
        } else {
            0
        };
        if self.sprites_enabled() {
            match self.sprite_winner(self.visible_sprites(), x, bg) {
                Some(sprite) => shade_spec(
                    self.sprite_palette(sprite),
                    self.sprite_colour(sprite, x),
                ),
                None => base,
            }
        } else {
            base
        }
    }

    /// The PPU after rendering line LY into the framebuffer.
    pub open spec fn draw_line_spec(self) -> PpuModel {
        if self.ly >= 144 {
            self
        } else {
            let start = 160 * self.ly;
            PpuModel {
                framebuffer: Seq::new(
                    23040,
                    |i: int|
                        if start <= i < start + 160 {
                            self.line_pixel(i - start)
                        } else {
                            self.framebuffer[i]
                        },
                ),
                window_line: if self.bg_enabled() && self.window_drawn() {
                    (self.window_line + 1) as u8
                } else {
                    self.window_line
                },
                ..self
            }
        }
    }
}

/// Which sprite wins a pixel depends only on tile data, LCDC and LY.
proof fn lemma_winner_frame(p: PpuModel, q: PpuModel, sprites: Seq<Sprite>, x: int, bg: u8)
    requires
        p.vram == q.vram,
        p.lcdc == q.lcdc,
        p.ly == q.ly,
    ensures
        p.sprite_winner(sprites, x, bg) == q.sprite_winner(sprites, x, bg),
    decreases sprites.len(),
{
    if sprites.len() > 0 {
        lemma_winner_frame(p, q, sprites.drop_last(), x, bg);
    }
}

/// Every sprite the scan keeps is on the line.
proof fn lemma_line_sprites_on_line(oam: Seq<u8>, line: int, height: int, n: int)
    ensures
        line_sprites(oam, line, height, n).len() <= 10,
        forall|k: int|
            0 <= k < line_sprites(oam, line, height, n).len() ==> on_line(
                #[trigger] line_sprites(oam, line, height, n)[k],
                line,
                height,
            ) && -8 <= line_sprites(oam, line, height, n)[k].x <= 247,
    decreases n,
{
    if n > 0 {
        lemma_line_sprites_on_line(oam, line, height, n - 1);
    }
}

/// An offset into VRAM wraps at 8 KiB.
proof fn lemma_vram_index(offset: usize)
    ensures
        offset & 0x1FFF == offset % 0x2000,
{
    assert(offset & 0x1FFF == offset % 0x2000) by (bit_vector);
}

impl Ppu {
    /// Applies a palette register to a 2-bit colour index.
    pub fn shade(palette: u8, colour: u8) -> (r: Shade)
        requires
            colour < 4,
        ensures
            r == shade_spec(palette, colour),
    {
        (palette >> (colour * 2)) & 0x03
    }

    /// Reads one row of a tile and returns its eight colour indices, left to right.
    ///
    /// `tile_address` is the tile's base offset in VRAM; `row` is 0-7.
    pub fn tile_row(&self, tile_address: u16, row: u16) -> (r: [u8; 8])
        requires
            tile_address + 2 * row <= 0xFFFF,
        ensures
            forall|column: int|
                0 <= column < 8 ==> r[column] == tile_pixel(
                    self@.vram,
                    tile_address as int,
                    row as int,
                    column,
                ) && r[column] < 4,
    {
        let base = (tile_address + row * 2) as usize;
        proof {
            lemma_vram_index(base);
            lemma_vram_index((base + 1) as usize);
        }
        let low = self.vram[base & 0x1FFF];
        let high = self.vram[(base + 1) & 0x1FFF];

        let mut pixels = [0u8; 8];
        let mut offset: u8 = 0;
        while offset < 8
            invariant
                offset <= 8,
                low == self@.vram[(tile_address + 2 * row) % 0x2000],
                high == self@.vram[(tile_address + 2 * row + 1) % 0x2000],
                forall|column: int|
                    0 <= column < offset ==> pixels[column] == pixel_bits(low, high, column)
                        && pixels[column] < 4,
            decreases 8 - offset,
        {
            proof {
                lemma_pixel_bits_bounded(low, high, offset as int);
            }
            // Bit 7 is the leftmost pixel.
            let bit = 7 - offset;
            pixels[offset as usize] = ((low >> bit) & 1) | (((high >> bit) & 1) << 1u8);
            offset = offset + 1;
        }
        pixels
    }

    /// Resolves a tile number from a map into a VRAM offset.
    ///
    /// Two addressing modes, selected by LCDC's TILE_SEL bit. The unsigned mode is
    /// straightforward: tiles start at 0x8000. The signed mode treats the tile
    /// number as an `i8` relative to 0x9000, so tile 0 is in the middle of VRAM and
    /// negative numbers reach back to 0x8800. That exists so two tile sets can share
    /// the region, and it is a classic source of "everything is garbage" bugs.
    pub fn tile_address(&self, tile: u8) -> (r: u16)
        ensures
            r == self@.tile_address_spec(tile),
            r <= 0x17F0,
    {
        if self.signed_tile_addressing() {
            // 0x9000 is VRAM offset 0x1000; tile numbers from 0x80 up are negative,
            // and 0x1000 + (tile - 256) * 16 is just tile * 16 for them.
            if tile < 128 {
                0x1000 + tile as u16 * 16
            } else {
                tile as u16 * 16
            }
        } else {
            tile as u16 * 16
        }
    }

    /// Looks up one pixel of a tile map. `x` and `y` are in map space (0-255).
    fn map_pixel(&self, map_base: u16, x: u16, y: u16) -> (r: u8)
        requires
            map_base <= 0x1C00,
            x < 256,
            y < 256,
        ensures
            r == self@.map_pixel_spec(map_base as int, x as int, y as int),
            r < 4,
    {
        // The map is 32x32 tile numbers, one byte each.
        let map_offset = map_base + (y / 8) * 32 + (x / 8);
        proof {
            lemma_vram_index(map_offset as usize);
        }
        let tile = self.vram[(map_offset as usize) & 0x1FFF];
        let address = self.tile_address(tile);
        let pixels = self.tile_row(address, y % 8);
        pixels[(x % 8) as usize]
    }

    /// Renders the current scanline into the framebuffer.
    pub fn draw_line(&mut self)
        requires
            old(self).window_line <= old(self).ly + 1,
        ensures
            final(self)@ == old(self)@.draw_line_spec(),
    {
        let line = self.ly as usize;
        if line >= 144 {
            return;
        }
        let ghost start = self@;

        // Colour indices for this line, kept alongside the shades because sprite
        // priority is decided against the background *index*, not its shade. A
        // background showing index 0 is "behind" even if the palette makes it dark.
        let mut bg_colours = [0u8; 160];

        if self.bg_enabled() {
            self.draw_background_line(&mut bg_colours);
        } else {
            // With BG_EN clear the background is blank white, and the window goes
            // with it on a DMG.
            let row_start = line * 160;
            let mut x: usize = 0;
            while x < 160
                invariant
                    x <= 160,
                    line == start.ly,
                    line < 144,
                    row_start == 160 * line,
                    self@ == (PpuModel { framebuffer: self@.framebuffer, ..start }),
                    self@.framebuffer.len() == 23040,
                    forall|i: int|
                        0 <= i < 23040 ==> #[trigger] self@.framebuffer[i] == if row_start <= i
                            < row_start + x {
                            0
                        } else {
                            start.framebuffer[i]
                        },
                    forall|i: int| 0 <= i < 160 ==> bg_colours[i] == 0,
                decreases 160 - x,
            {
                self.framebuffer[row_start + x] = 0;
                x = x + 1;
            }
        }
        let ghost after_bg = self@;

        if self.sprites_enabled() {
            self.draw_sprite_line(&bg_colours);
        }
        proof {
            assert forall|x: int| 0 <= x < 160 implies bg_colours[x] == (if start.bg_enabled() {
                start.bg_colour(x)
            } else {
                0
            }) by {}
            assert forall|x: int| 0 <= x < 160 implies #[trigger] start.sprite_winner(
                start.visible_sprites(),
                x,
                bg_colours[x],
            ) == after_bg.sprite_winner(after_bg.visible_sprites(), x, bg_colours[x]) by {
                lemma_winner_frame(start, after_bg, start.visible_sprites(), x, bg_colours[x]);
            }
            assert(self@.framebuffer =~= start.draw_line_spec().framebuffer);
        }
    }

    /// Draws the background and, where it is visible, the window.
    fn draw_background_line(&mut self, bg_colours: &mut [u8; 160])
        requires
            old(self).window_line <= old(self).ly + 1,
            old(self).ly < 144,
            old(self)@.bg_enabled(),
        ensures
            forall|x: int| 0 <= x < 160 ==> final(bg_colours)[x] == old(self)@.bg_colour(x),
            final(self)@ == (PpuModel {
                framebuffer: Seq::new(
                    23040,
                    |i: int|
                        if 160 * old(self).ly <= i < 160 * old(self).ly + 160 {
                            shade_spec(old(self).bgp, old(self)@.bg_colour(i - 160 * old(self).ly))
                        } else {
                            old(self)@.framebuffer[i]
                        },
                ),
                window_line: if old(self)@.window_drawn() {
                    (old(self).window_line + 1) as u8
                } else {
                    old(self).window_line
                },
                ..old(self)@
            }),
    {
        let ghost start = self@;
        let line = self.ly;
        let row_start = line as usize * 160;
        // The window starts on the first line where WY has been reached, and its own
        // counter advances only on lines where it actually appears.
        let window_visible = self.window_enabled() && line >= self.wy;
        let mut window_drawn = false;

        let mut x: usize = 0;
        while x < 160
            invariant
                x <= 160,
                line == start.ly,
                line < 144,
                start.window_line <= start.ly + 1,
                row_start == 160 * line,
                window_visible == start.window_visible(),
                window_drawn == (window_visible && x > 0 && start.wx - 7 < x),
                self@ == (PpuModel { framebuffer: self@.framebuffer, ..start }),
                self@.framebuffer.len() == 23040,
                forall|i: int|
                    0 <= i < 23040 ==> #[trigger] self@.framebuffer[i] == if row_start <= i
                        < row_start + x {
                        shade_spec(start.bgp, start.bg_colour(i - row_start))
                    } else {
                        start.framebuffer[i]
                    },
                forall|c: int| 0 <= c < x ==> bg_colours[c] == start.bg_colour(c),
            decreases 160 - x,
        {
            // WX is stored offset by 7, so WX=7 puts the window at the left edge.
            let window_here = window_visible && (x as i16) >= (self.wx as i16 - 7);

            let colour = if window_here {
                window_drawn = true;
                let window_x = (x as i16 - (self.wx as i16 - 7)) as u16;
                let window_y = self.window_line as u16;
                self.map_pixel(self.window_map_base(), window_x, window_y)
            } else {
                // The background is a 256x256 plane that wraps, scrolled by SCX/SCY.
                let bg_x = (x as u16 + self.scx as u16) & 0xFF;
                let bg_y = (line as u16 + self.scy as u16) & 0xFF;
                proof {
                    super::lemma_low_byte((x as u16 + self.scx as u16) as u16);
                    super::lemma_low_byte((line as u16 + self.scy as u16) as u16);
                }
                self.map_pixel(self.bg_map_base(), bg_x, bg_y)
            };

            bg_colours[x] = colour;
            self.framebuffer[row_start + x] = Self::shade(self.bgp, colour);
            x = x + 1;
        }

        // The window's line counter tracks lines *it* was drawn on, not screen lines,
        // so a window that starts partway down still begins at its own row 0.
        if window_drawn {
            self.window_line = self.window_line + 1;
        }
    }

    /// Draws sprites intersecting this scanline.
    ///
    /// Hardware scans OAM in order and keeps the first ten sprites on the line — a
    /// real limit games work within, and why sprites sometimes flicker. Each pixel
    /// then shows the sprite that claims it first in priority order.
    fn draw_sprite_line(&mut self, bg_colours: &[u8; 160])
        requires
            old(self).ly < 144,
        ensures
            final(self)@ == (PpuModel {
                framebuffer: Seq::new(
                    23040,
                    |i: int|
                        if 160 * old(self).ly <= i < 160 * old(self).ly + 160 {
                            match old(self)@.sprite_winner(
                                old(self)@.visible_sprites(),
                                i - 160 * old(self).ly,
                                bg_colours[i - 160 * old(self).ly],
                            ) {
                                Some(sprite) => shade_spec(
                                    old(self)@.sprite_palette(sprite),
                                    old(self)@.sprite_colour(sprite, i - 160 * old(self).ly),
                                ),
                                None => old(self)@.framebuffer[i],
                            }
                        } else {
                            old(self)@.framebuffer[i]
                        },
                ),
                ..old(self)@
            }),
    {
        let ghost start = self@;
        let line = self.ly as i16;
        let height: i16 = if self.tall_sprites() {
            16
        } else {
            8
        };

        // Find sprites on this line, in OAM order, keeping the first ten.
        let mut visible: Vec<Sprite> = Vec::new();
        let mut index: usize = 0;
        while index < 40
            invariant
                index <= 40,
                self@ == start,
                line == start.ly,
                height == start.sprite_height(),
                visible@ == line_sprites(start.oam, line as int, height as int, index as int),
            decreases 40 - index,
        {
            let base = index * 4;
            let sprite = Sprite {
                y: self.oam[base] as i16 - 16,
                x: self.oam[base + 1] as i16 - 8,
                tile: self.oam[base + 2],
                flags: self.oam[base + 3],
                index,
            };
            if visible.len() < 10 && line >= sprite.y && line < sprite.y + height {
                visible.push(sprite);
            }
            index = index + 1;
        }
        proof {
            lemma_line_sprites_on_line(start.oam, line as int, height as int, 40);
        }

        let row_start = self.ly as usize * 160;
        let mut x: usize = 0;
        while x < 160
            invariant
                x <= 160,
                line == start.ly,
                line < 144,
                height == start.sprite_height(),
                row_start == 160 * line,
                visible@ == start.visible_sprites(),
                visible@.len() <= 10,
                forall|k: int|
                    0 <= k < visible@.len() ==> on_line(
                        #[trigger] visible@[k],
                        line as int,
                        height as int,
                    ) && -8 <= visible@[k].x <= 247,
                self@ == (PpuModel { framebuffer: self@.framebuffer, ..start }),
                self@.framebuffer.len() == 23040,
                forall|i: int|
                    0 <= i < 23040 ==> #[trigger] self@.framebuffer[i] == if row_start <= i
                        < row_start + x {
                        match start.sprite_winner(
                            start.visible_sprites(),
                            i - row_start,
                            bg_colours[i - row_start],
                        ) {
                            Some(sprite) => shade_spec(
                                start.sprite_palette(sprite),
                                start.sprite_colour(sprite, i - row_start),
                            ),
                            None => start.framebuffer[i],
                        }
                    } else {
                        start.framebuffer[i]
                    },
            decreases 160 - x,
        {
            let bg = bg_colours[x];
            let screen_x = x as i16;
            let mut best: Option<usize> = None;
            let mut k: usize = 0;
            while k < visible.len()
                invariant
                    k <= visible@.len(),
                    visible@.len() <= 10,
                    x < 160,
                    screen_x == x,
                        line == start.ly,
                    line < 144,
                    height == start.sprite_height(),
                    self@ == (PpuModel { framebuffer: self@.framebuffer, ..start }),
                    forall|j: int|
                        0 <= j < visible@.len() ==> on_line(
                            #[trigger] visible@[j],
                            line as int,
                            height as int,
                        ) && -8 <= visible@[j].x <= 247,
                    match best {
                        Some(b) => b < k && start.sprite_winner(
                            visible@.take(k as int),
                            x as int,
                            bg,
                        ) == Some(visible@[b as int]),
                        None => start.sprite_winner(visible@.take(k as int), x as int, bg)
                            is None,
                    },
                decreases visible@.len() - k,
            {
                let sprite = visible[k];
                let claims = self.sprite_claims(&sprite, screen_x, bg);
                let first = match best {
                    Some(b) => {
                        let other = visible[b];
                        sprite.x < other.x || (sprite.x == other.x && sprite.index < other.index)
                    },
                    None => true,
                };
                proof {
                    assert(visible@.take(k + 1).drop_last() =~= visible@.take(k as int));
                    assert(visible@.take(k + 1).last() == visible@[k as int]);
                }
                if claims && first {
                    best = Some(k);
                }
                k = k + 1;
            }
            proof {
                assert(visible@.take(visible@.len() as int) =~= visible@);
                lemma_winner_claims(start, visible@, x as int, bg);
            }
            if let Some(b) = best {
                let sprite = visible[b];
                let palette = if sprite.uses_obp1() {
                    self.obp1
                } else {
                    self.obp0
                };
                let colour = self.sprite_colour(&sprite, screen_x);
                self.framebuffer[row_start + x] = Self::shade(palette, colour);
            }
            x = x + 1;
        }
        proof {
            assert(self@.framebuffer =~= Seq::new(
                23040,
                |i: int|
                    if 160 * start.ly <= i < 160 * start.ly + 160 {
                        match start.sprite_winner(
                            start.visible_sprites(),
                            i - 160 * start.ly,
                            bg_colours[i - 160 * start.ly],
                        ) {
                            Some(sprite) => shade_spec(
                                start.sprite_palette(sprite),
                                start.sprite_colour(sprite, i - 160 * start.ly),
                            ),
                            None => start.framebuffer[i],
                        }
                    } else {
                        start.framebuffer[i]
                    },
            ));
        }
    }

    /// The colour index a sprite on this line has at screen column `x`.
    fn sprite_colour(&self, sprite: &Sprite, x: i16) -> (r: u8)
        requires
            on_line(*sprite, self.ly as int, self@.sprite_height()),
            sprite.x <= x < sprite.x + 8,
        ensures
            r == self@.sprite_colour(*sprite, x as int),
            r < 4,
    {
        let height: i16 = if self.tall_sprites() {
            16
        } else {
            8
        };
        let mut row = self.ly as i16 - sprite.y;
        if sprite.flip_y() {
            row = height - 1 - row;
        }
        // A tall sprite is two stacked tiles, and the hardware ignores bit 0 of
        // the tile number so the pair is always aligned.
        proof {
            lemma_even_tile(sprite.tile);
        }
        let tile = if self.tall_sprites() {
            (sprite.tile & 0xFE) + if row >= 8 {
                1u8
            } else {
                0u8
            }
        } else {
            sprite.tile
        };
        // Sprites always use unsigned addressing from 0x8000, regardless of the
        // TILE_SEL bit that governs background tiles.
        let pixels = self.tile_row(tile as u16 * 16, (row % 8) as u16);
        let offset = x - sprite.x;
        let index = if sprite.flip_x() {
            7 - offset
        } else {
            offset
        };
        pixels[index as usize]
    }

    /// Whether a sprite on this line claims column `x` over background colour `bg`.
    fn sprite_claims(&self, sprite: &Sprite, x: i16, bg: u8) -> (r: bool)
        requires
            on_line(*sprite, self.ly as int, self@.sprite_height()),
            -8 <= sprite.x <= 247,
        ensures
            r == self@.sprite_claims(*sprite, x as int, bg),
    {
        if x < sprite.x || x >= sprite.x + 8 {
            return false;
        }
        let colour = self.sprite_colour(sprite, x);
        // Colour 0 is transparent for sprites — not a shade at all.
        if colour == 0 {
            return false;
        }
        // A background-priority sprite hides behind non-zero background.
        !(sprite.behind_background() && bg != 0)
    }
}

/// The winner of a pixel is one of its claimants.
proof fn lemma_winner_claims(p: PpuModel, sprites: Seq<Sprite>, x: int, bg: u8)
    ensures
        p.sprite_winner(sprites, x, bg) matches Some(s) ==> p.sprite_claims(s, x, bg),
    decreases sprites.len(),
{
    if sprites.len() > 0 {
        lemma_winner_claims(p, sprites.drop_last(), x, bg);
    }
}

/// Sprite priority: a pixel shows a sprite exactly when some sprite on the line
/// claims it, and then no claimant comes before the one shown — smaller X wins, and
/// OAM order breaks ties.
pub proof fn lemma_sprite_priority(p: PpuModel, sprites: Seq<Sprite>, x: int, bg: u8)
    ensures
        p.sprite_winner(sprites, x, bg) is Some <==> exists|k: int|
            0 <= k < sprites.len() && p.sprite_claims(#[trigger] sprites[k], x, bg),
        p.sprite_winner(sprites, x, bg) matches Some(w) ==> {
            &&& p.sprite_claims(w, x, bg)
            &&& sprites.contains(w)
            &&& forall|k: int|
                0 <= k < sprites.len() && p.sprite_claims(#[trigger] sprites[k], x, bg)
                    ==> !sprites[k].precedes(w)
        },
    decreases sprites.len(),
{
    if sprites.len() > 0 {
        let init = sprites.drop_last();
        lemma_sprite_priority(p, init, x, bg);
        assert forall|k: int| 0 <= k < init.len() implies #[trigger] init[k] == sprites[k] by {}
        let last = sprites.last();
        if p.sprite_claims(last, x, bg) {
            assert(p.sprite_claims(sprites[sprites.len() - 1], x, bg));
        }
        if let Some(w) = p.sprite_winner(init, x, bg) {
            let k = choose|k: int| 0 <= k < init.len() && init[k] == w;
            assert(sprites[k] == w);
        }
        if p.sprite_winner(sprites, x, bg) is None {
            assert forall|k: int|
                0 <= k < sprites.len() implies !p.sprite_claims(#[trigger] sprites[k], x, bg) by {
                if k < init.len() {
                    assert(init[k] == sprites[k]);
                }
            }
        }
        if let Some(w) = p.sprite_winner(sprites, x, bg) {
            assert forall|k: int|
                0 <= k < sprites.len() && p.sprite_claims(
                    #[trigger] sprites[k],
                    x,
                    bg,
                ) implies !sprites[k].precedes(w) by {
                if k < init.len() {
                    assert(init[k] == sprites[k]);
                    assert(p.sprite_claims(init[k], x, bg));
                }
            }
        }
    }
}

/// The even half of a tall sprite's tile pair.
proof fn lemma_even_tile(tile: u8)
    ensures
        tile & 0xFE <= 0xFE,
{
    assert(tile & 0xFE <= 0xFE) by (bit_vector);
}

/// A tile pixel is a 2-bit colour index.
proof fn lemma_pixel_bits_bounded(low: u8, high: u8, column: int)
    requires
        0 <= column < 8,
    ensures
        pixel_bits(low, high, column) < 4,
{
    let bit = (7 - column) as u8;
    assert(((low >> bit) & 1) | (((high >> bit) & 1) << 1u8) < 4) by (bit_vector);
}

} // verus!
