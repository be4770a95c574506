use vstd::prelude::*;
use crate::mappers::{Cartridge, CartridgeModel, cart_ppu_read_spec};
use crate::ppu::{PPUState, PPUStateModel, PPUMASK_SHOW_BACKGROUND_LEFT, PPUMASK_SHOW_SPRITE, PPUMASK_SHOW_SPRITE_LEFT};

verus! {

pub const SCREEN_WIDTH: usize = 256;
pub const SCREEN_HEIGHT: usize = 240;
pub const FRAMEBUFFER_LEN: usize = 61440;

/// One 8-pixel-wide tile placed relative to the line being drawn: `y` is the
/// tile's top row minus the line.
#[derive(Clone, Copy, PartialEq, Eq, Structural, Debug)]
pub struct TileSection {
    pub x: i16,
    pub y: i16,
    /// Which of the eight 4-colour palettes (0-3 background, 4-7 sprites).
    pub pallete: u8,
    /// Which pattern table, 0 or 1.
    pub pattern_t: u8,
    pub tile: u8,
    pub flipx: bool,
    pub flipy: bool,
    /// Suppress the leftmost eight pixels.
    pub mask_left: bool,
    /// Background pixels are marked opaque with bit 7.
    pub background: bool,
    /// A sprite pixel that is drawn only where the background is not opaque.
    pub behind: bool,
}

/// The row of the tile's pattern that falls on the line being drawn.
pub open spec fn tile_row_index(t: TileSection) -> int {
    if t.flipy { t.y + 7 } else { -t.y }
}

/// The pattern column that lands on screen column `c`.
pub open spec fn tile_col(t: TileSection, c: int) -> int {
    if t.flipx { t.x + 7 - c } else { c - t.x }
}

/// The address of the low bitplane byte of pattern row `i`.
pub open spec fn pattern_addr(t: TileSection, i: int) -> u16 {
    (i + 16 * t.tile + 0x1000 * t.pattern_t) as u16
}

/// The 2-bit colour of column `a` (0 = leftmost) of a pattern row.
pub open spec fn color_index(lo: u8, hi: u8, a: int) -> int {
    (if lo & (0x80u8 >> (a as u8)) != 0 { 1int } else { 0int }) + (if hi & (0x80u8 >> (a as u8)) != 0 { 2int } else { 0int })
}

/// The pixel at column `c` after the tile is drawn over `old`: colour 0 is
/// transparent, the left edge may be masked, and a background pixel carries
/// the opaque mark.
#[verifier::opaque]
pub open spec fn tile_pixel(s: PPUStateModel, cart: CartridgeModel, t: TileSection, old: u8, c: int) -> u8 {
    let i = tile_row_index(t);
    let a = tile_col(t, c);
    if 0 <= i < 8 && 0 <= a < 8 && !(t.mask_left && c < 8) && !(t.behind && old & 0x80 != 0) {
        let lo = cart_ppu_read_spec(cart, pattern_addr(t, i));
        let hi = cart_ppu_read_spec(cart, (pattern_addr(t, i) + 8) as u16);
        let ci = color_index(lo, hi, a);
        if ci != 0 {
            let color = s.pallete[4 * t.pallete + ci];
            if t.background { color | 0x80 } else { color }
        } else {
            old
        }
    } else {
        old
    }
}

/// Whether drawing the tile puts an opaque pixel at column `c`.
pub open spec fn tile_covers(cart: CartridgeModel, t: TileSection, c: int) -> bool {
    let i = tile_row_index(t);
    let a = tile_col(t, c);
    &&& 0 <= i < 8 && 0 <= a < 8 && !(t.mask_left && c < 8)
    &&& color_index(cart_ppu_read_spec(cart, pattern_addr(t, i)), cart_ppu_read_spec(cart, (pattern_addr(t, i) + 8) as u16), a) != 0
}

/// The 256 pixels of line `row`.
pub open spec fn row_of(fb: Seq<u8>, row: int) -> Seq<u8> {
    fb.subrange(row * 256, row * 256 + 256)
}

/// A line after one tile is drawn over it.
pub open spec fn apply_tile(s: PPUStateModel, cart: CartridgeModel, t: TileSection, line: Seq<u8>) -> Seq<u8> {
    Seq::new(256, |c: int| tile_pixel(s, cart, t, line[c], c))
}

/// The line `row` of the framebuffer, other lines untouched.
pub open spec fn only_row_changed(old: Seq<u8>, new: Seq<u8>, row: int) -> bool {
    &&& new.len() == old.len()
    &&& forall|k: int| 0 <= k < old.len() && !(row * 256 <= k < row * 256 + 256) ==> new[k] == old[k]
}

impl PPUState {
    /// Draws the part of one tile that lies on line `row` of the framebuffer.
    pub fn draw_tile_section(&self, cart: &Cartridge, t: TileSection, framebuffer: &mut Vec<u8>, row: usize)
        requires
            t.pallete < 8,
            t.pattern_t < 2,
            row < SCREEN_HEIGHT,
            old(framebuffer)@.len() == FRAMEBUFFER_LEN,
        ensures
            only_row_changed(old(framebuffer)@, final(framebuffer)@, row as int),
            forall|c: int| 0 <= c < 256 ==> #[trigger] final(framebuffer)@[row * 256 + c]
                == tile_pixel(self@, cart@, t, old(framebuffer)@[row * 256 + c], c),
            row_of(final(framebuffer)@, row as int) == apply_tile(self@, cart@, t, row_of(old(framebuffer)@, row as int)),
    {
        reveal(tile_pixel);
        let i: i32 = if t.flipy { t.y as i32 + 7 } else { -(t.y as i32) };
        if i < 0 || i >= 8 {
            proof {
                assert(final(framebuffer)@ =~= old(framebuffer)@);
            }
            assert(row_of(final(framebuffer)@, row as int) =~= apply_tile(self@, cart@, t, row_of(old(framebuffer)@, row as int)));
            return;
        }
        let base: u16 = (i as u16) + 16 * (t.tile as u16) + 0x1000 * (t.pattern_t as u16);
        let lo = cart.ppu_read(base);
        let hi = cart.ppu_read(base + 8);
        let ghost start = old(framebuffer)@;
        assert(row * 256 + 256 <= FRAMEBUFFER_LEN) by (nonlinear_arith)
            requires row < SCREEN_HEIGHT;
        let row_start = row * 256;
        let mut a: i32 = 0;
        while a < 8
            invariant
                0 <= a <= 8,
                0 <= i < 8,
                base == pattern_addr(t, i as int),
                lo == cart_ppu_read_spec(cart@, base),
                hi == cart_ppu_read_spec(cart@, (base + 8) as u16),
                i == tile_row_index(t),
                row < SCREEN_HEIGHT,
                row_start == row * 256,
                t.pallete < 8,
                start == old(framebuffer)@,
                framebuffer@.len() == FRAMEBUFFER_LEN,
                row * 256 + 256 <= FRAMEBUFFER_LEN,
                only_row_changed(start, framebuffer@, row as int),
                forall|c: int| 0 <= c < 256 ==> #[trigger] framebuffer@[row * 256 + c]
                    == if 0 <= tile_col(t, c) < a { tile_pixel(self@, cart@, t, start[row * 256 + c], c) } else { start[row * 256 + c] },
            decreases 8 - a,
        {
            let mask: u8 = 0x80u8 >> (a as u8);
            let ci: usize = (if lo & mask != 0 { 1 } else { 0 }) + (if hi & mask != 0 { 2 } else { 0 });
            let sx: i32 = if t.flipx { t.x as i32 + 7 - a } else { t.x as i32 + a };
            proof {
                assert(ci == color_index(lo, hi, a as int));
                assert(tile_col(t, sx as int) == a);
            }
            if 0 <= sx && sx < 256 && !(t.mask_left && sx < 8) && ci != 0 {
                let idx = row_start + sx as usize;
                let old_px = framebuffer[idx];
                if !(t.behind && old_px & 0x80 != 0) {
                    let color = self.pallete[4 * t.pallete as usize + ci];
                    framebuffer.set(idx, if t.background { color | 0x80 } else { color });
                }
            }
            a = a + 1;
            proof {
                reveal(tile_pixel);
                assert(row * 256 + 256 <= FRAMEBUFFER_LEN);
                assert forall|c: int| 0 <= c < 256 implies #[trigger] framebuffer@[row * 256 + c]
                    == if 0 <= tile_col(t, c) < a { tile_pixel(self@, cart@, t, start[row * 256 + c], c) } else { start[row * 256 + c] } by {
                    if c != sx {
                        assert(tile_col(t, c) != a - 1);
                    }
                }
            }
        }
        assert forall|c: int| 0 <= c < 256 implies #[trigger] row_of(framebuffer@, row as int)[c]
            == apply_tile(self@, cart@, t, row_of(start, row as int))[c] by {
            assert(framebuffer@[row * 256 + c] == tile_pixel(self@, cart@, t, start[row * 256 + c], c));
        }
        assert(row_of(framebuffer@, row as int) =~= apply_tile(self@, cart@, t, row_of(start, row as int)));
    }
}

} // verus!

verus! {

/// The left edge of the visible window in the 512-wide nametable plane, one
/// tile early so that fine X can shift a partial tile in.
pub open spec fn bg_base_x(s: PPUStateModel) -> int {
    ((if s.ppuctrl & 1 != 0 { 256int } else { 0int }) + s.ppuscroll.x + 504) % 512
}

/// The line of the 480-high nametable plane being drawn.
pub open spec fn bg_base_y(s: PPUStateModel) -> int {
    ((if s.ppuctrl & 2 != 0 { 240int } else { 0int }) + s.ppuscroll.y) % 480
}

/// The plane X of the `a`-th tile column drawn.
pub open spec fn bg_tile_x(s: PPUStateModel, a: int) -> int {
    bg_base_x(s) - bg_base_x(s) % 8 + 8 * a
}

pub open spec fn bg_tile_y(s: PPUStateModel) -> int {
    bg_base_y(s) - bg_base_y(s) % 8
}

/// Which of the four nametables a tile column falls in.
pub open spec fn bg_nametable(s: PPUStateModel, a: int) -> int {
    (if bg_tile_y(s) >= 240 { 2int } else { 0int }) + (if bg_tile_x(s, a) % 512 >= 256 { 1int } else { 0int })
}

pub open spec fn bg_tile_index(s: PPUStateModel, cart: CartridgeModel, a: int) -> u8 {
    cart_ppu_read_spec(
        cart,
        (0x2000 + bg_nametable(s, a) * 0x400 + (bg_tile_x(s, a) % 256) / 8 + 32 * ((bg_tile_y(s) % 240) / 8)) as u16,
    )
}

/// The 2-bit palette of a tile column, from the attribute byte of its 32x32
/// block and the quadrant the tile lies in.
pub open spec fn bg_attribute(s: PPUStateModel, cart: CartridgeModel, a: int) -> u8 {
    let nx = bg_tile_x(s, a) % 256;
    let ny = bg_tile_y(s) % 240;
    let byte = cart_ppu_read_spec(cart, (0x2000 + bg_nametable(s, a) * 0x400 + 0x3c0 + 8 * (ny / 32) + nx / 32) as u16);
    let shift = (2 * ((ny / 16) % 2) + (nx / 16) % 2) * 2;
    (byte >> (shift as u8)) & 3
}

pub open spec fn bg_section(s: PPUStateModel, cart: CartridgeModel, a: int) -> TileSection {
    TileSection {
        x: (bg_tile_x(s, a) - bg_base_x(s) - 8) as i16,
        y: (bg_tile_y(s) - bg_base_y(s)) as i16,
        pallete: bg_attribute(s, cart, a),
        pattern_t: ((s.ppuctrl / 16) % 2) as u8,
        tile: bg_tile_index(s, cart, a),
        flipx: false,
        flipy: false,
        mask_left: s.ppumask & PPUMASK_SHOW_BACKGROUND_LEFT == 0,
        background: true,
        behind: false,
    }
}

/// The tile column that covers screen column `c`.
pub open spec fn bg_column_of(s: PPUStateModel, c: int) -> int {
    (c + 8 + bg_base_x(s) % 8) / 8
}

/// The background of the current line: the backdrop colour where no opaque
/// tile pixel lies.
pub open spec fn bg_row(s: PPUStateModel, cart: CartridgeModel) -> Seq<u8> {
    Seq::new(256, |c: int| tile_pixel(s, cart, bg_section(s, cart, bg_column_of(s, c)), s.pallete[0], c))
}

/// Tile column `a` reaches only the screen columns assigned to it.
pub proof fn lemma_bg_columns(s: PPUStateModel, cart: CartridgeModel, a: int, k: int)
    requires
        0 <= a < 34,
        0 <= k < 256,
    ensures
        bg_column_of(s, k) != a ==> forall|old: u8| tile_pixel(s, cart, bg_section(s, cart, a), old, k) == old,
        bg_column_of(s, k) < 34,
{
    reveal(tile_pixel);
    let f = bg_base_x(s) % 8;
    assert(bg_tile_x(s, a) - bg_base_x(s) - 8 == 8 * a - f - 8);
}

impl PPUState {
    fn background_section(&self, cart: &Cartridge, a: u16) -> (r: TileSection)
        requires
            a < 34,
        ensures
            r == bg_section(self@, cart@, a as int),
            r.pallete < 4,
            r.pattern_t < 2,
    {
        let nt_x: u16 = if self.ppuctrl & 1 != 0 { 256 } else { 0 };
        let nt_y: u16 = if self.ppuctrl & 2 != 0 { 240 } else { 0 };
        let base_x: u16 = (nt_x + self.ppuscroll.x as u16 + 504) % 512;
        let base_y: u16 = (nt_y + self.ppuscroll.y as u16) % 480;
        let nx: u16 = base_x - base_x % 8 + 8 * a;
        let ny: u16 = base_y - base_y % 8;
        let nt: u16 = (if ny >= 240 { 2 } else { 0 }) + (if nx % 512 >= 256 { 1 } else { 0 });
        let tile = cart.ppu_read(0x2000 + nt * 0x400 + (nx % 256) / 8 + 32 * ((ny % 240) / 8));
        let attr_byte = cart.ppu_read(0x2000 + nt * 0x400 + 0x3c0 + 8 * ((ny % 240) / 32) + (nx % 256) / 32);
        let shift: u16 = (2 * (((ny % 240) / 16) % 2) + ((nx % 256) / 16) % 2) * 2;
        let pallete = (attr_byte >> (shift as u8)) & 3;
        assert(((attr_byte >> (shift as u8)) & 3) < 4) by (bit_vector);
        TileSection {
            x: (nx as i32 - base_x as i32 - 8) as i16,
            y: (ny as i32 - base_y as i32) as i16,
            pallete,
            pattern_t: (self.ppuctrl / 16) % 2,
            tile,
            flipx: false,
            flipy: false,
            mask_left: self.ppumask & PPUMASK_SHOW_BACKGROUND_LEFT == 0,
            background: true,
            behind: false,
        }
    }

    /// Paints line `row` with the backdrop colour, then draws the background
    /// tiles of the current scroll position over it.
    #[verifier::spinoff_prover]
    #[verifier::rlimit(60)]
    pub fn draw_background(&self, cart: &Cartridge, framebuffer: &mut Vec<u8>, row: usize)
        requires
            row < SCREEN_HEIGHT,
            old(framebuffer)@.len() == FRAMEBUFFER_LEN,
        ensures
            only_row_changed(old(framebuffer)@, final(framebuffer)@, row as int),
            row_of(final(framebuffer)@, row as int) == bg_row(self@, cart@),
    {
        assert(row * 256 + 256 <= FRAMEBUFFER_LEN) by (nonlinear_arith)
            requires row < SCREEN_HEIGHT;
        let ghost start = old(framebuffer)@;
        let backdrop = self.pallete[0];
        let mut c: usize = 0;
        while c < 256
            invariant
                c <= 256,
                row < SCREEN_HEIGHT,
                row * 256 + 256 <= FRAMEBUFFER_LEN,
                framebuffer@.len() == FRAMEBUFFER_LEN,
                backdrop == self@.pallete[0],
                only_row_changed(start, framebuffer@, row as int),
                forall|k: int| 0 <= k < c ==> #[trigger] framebuffer@[row * 256 + k] == backdrop,
            decreases 256 - c,
        {
            framebuffer.set(row * 256 + c, backdrop);
            c = c + 1;
        }
        let ghost fine = bg_base_x(self@) % 8;
        let mut a: u16 = 0;
        while a < 34
            invariant
                a <= 34,
                row < SCREEN_HEIGHT,
                row * 256 + 256 <= FRAMEBUFFER_LEN,
                framebuffer@.len() == FRAMEBUFFER_LEN,
                backdrop == self@.pallete[0],
                fine == bg_base_x(self@) % 8,
                only_row_changed(start, framebuffer@, row as int),
                forall|k: int| 0 <= k < 256 ==> #[trigger] framebuffer@[row * 256 + k]
                    == if bg_column_of(self@, k) < a { bg_row(self@, cart@)[k] } else { backdrop },
            decreases 34 - a,
        {
            let t = self.background_section(cart, a);
            let ghost before = framebuffer@;
            self.draw_tile_section(cart, t, framebuffer, row);
            proof {
                assert forall|k: int| 0 <= k < 256 implies #[trigger] framebuffer@[row * 256 + k]
                    == if bg_column_of(self@, k) < a + 1 { bg_row(self@, cart@)[k] } else { backdrop } by {
                    lemma_bg_columns(self@, cart@, a as int, k);
                }
            }
            a = a + 1;
        }
        proof {
            assert forall|k: int| 0 <= k < 256 implies #[trigger] row_of(framebuffer@, row as int)[k] == bg_row(self@, cart@)[k] by {
                lemma_bg_columns(self@, cart@, 0, k);
                assert(framebuffer@[row * 256 + k] == bg_row(self@, cart@)[k]);
            }
            assert(row_of(framebuffer@, row as int) =~= bg_row(self@, cart@));
        }
    }
}

} // verus!

verus! {

pub open spec fn sprite_size16(s: PPUStateModel) -> bool {
    s.ppuctrl & 0x20 != 0
}

/// The tile of sprite `i` on line `scanline`; for an 8x16 sprite, `lower`
/// picks its lower half. 8x16 sprites take their pattern table from bit 0 of
/// the tile number, and a vertical flip swaps the halves.
pub open spec fn sprite_section(s: PPUStateModel, scanline: u8, i: int, lower: bool) -> TileSection {
    let pos_y = s.oam[4 * i];
    let tile = s.oam[4 * i + 1];
    let attr = s.oam[4 * i + 2];
    let pos_x = s.oam[4 * i + 3];
    let flipy = attr & 0x80 != 0;
    TileSection {
        x: pos_x as i16,
        y: (pos_y - scanline + if lower { 8int } else { 0int }) as i16,
        pallete: ((attr & 3) + 4) as u8,
        pattern_t: if sprite_size16(s) { tile % 2 } else { (s.ppuctrl / 8) % 2 },
        tile: if !sprite_size16(s) { tile } else if flipy != lower { tile | 1 } else { tile & !1u8 },
        flipx: attr & 0x40 != 0,
        flipy,
        mask_left: s.ppumask & PPUMASK_SHOW_SPRITE_LEFT == 0,
        background: false,
        behind: attr & 0x20 != 0,
    }
}

/// The line after sprites 63 down to 64 - n are drawn over it, so that lower
/// numbered sprites end up in front.
pub open spec fn sprites_drawn(s: PPUStateModel, cart: CartridgeModel, line: Seq<u8>, scanline: u8, n: nat) -> Seq<u8>
    decreases n,
{
    if n == 0 {
        line
    } else {
        let prev = sprites_drawn(s, cart, line, scanline, (n - 1) as nat);
        let i = 64 - n;
        let upper = apply_tile(s, cart, sprite_section(s, scanline, i, false), prev);
        if sprite_size16(s) { apply_tile(s, cart, sprite_section(s, scanline, i, true), upper) } else { upper }
    }
}

/// The screen column of pattern column `a` of a tile.
pub open spec fn hit_col(t: TileSection, a: int) -> int {
    if t.flipx { t.x + 7 - a } else { t.x + a }
}

/// Whether pattern column `a` of the tile puts an opaque pixel over an opaque
/// background pixel of `line`.
pub open spec fn hit_at(cart: CartridgeModel, t: TileSection, line: Seq<u8>, a: int) -> bool {
    let c = hit_col(t, a);
    0 <= c < 256 && tile_covers(cart, t, c) && line[c] & 0x80 != 0
}

/// The first column, in drawing order from pattern column `a` on, where the
/// tile overlaps opaque background.
pub open spec fn first_hit_from(cart: CartridgeModel, t: TileSection, line: Seq<u8>, a: int) -> Option<int>
    decreases 8 - a,
{
    if a >= 8 || a < 0 {
        None
    } else if hit_at(cart, t, line, a) {
        Some(hit_col(t, a))
    } else {
        first_hit_from(cart, t, line, a + 1)
    }
}

/// A reported overlap lies on the screen.
pub proof fn lemma_first_hit_range(cart: CartridgeModel, t: TileSection, line: Seq<u8>, a: int)
    ensures
        first_hit_from(cart, t, line, a) matches Some(c) ==> 0 <= c < 256,
    decreases 8 - a,
{
    if 0 <= a < 8 && !hit_at(cart, t, line, a) {
        lemma_first_hit_range(cart, t, line, a + 1);
    }
}

/// Sprite 0's reported overlap lies on the screen.
pub proof fn lemma_sprite0_hit_range(s: PPUStateModel, cart: CartridgeModel, line: Seq<u8>, scanline: u8)
    ensures
        sprite0_hit(s, cart, line, scanline) matches Some(c) ==> 0 <= c < 256,
{
    lemma_first_hit_range(cart, sprite_section(s, scanline, 0, false), line, 0);
    lemma_first_hit_range(cart, sprite_section(s, scanline, 0, true), line, 0);
}

/// A tile with no row on the line overlaps nothing.
pub proof fn lemma_no_hit_off_row(cart: CartridgeModel, t: TileSection, line: Seq<u8>, a: int)
    requires
        !(0 <= tile_row_index(t) < 8),
    ensures
        first_hit_from(cart, t, line, a) is None,
    decreases 8 - a,
{
    if 0 <= a < 8 {
        lemma_no_hit_off_row(cart, t, line, a + 1);
    }
}

/// Where sprite 0 first overlaps an opaque pixel of the background `line`, in
/// drawing order (upper half, then lower half for 8x16), when sprites are shown.
pub open spec fn sprite0_hit(s: PPUStateModel, cart: CartridgeModel, line: Seq<u8>, scanline: u8) -> Option<int> {
    if s.ppumask & PPUMASK_SHOW_SPRITE == 0 {
        None
    } else {
        match first_hit_from(cart, sprite_section(s, scanline, 0, false), line, 0) {
            Some(c) => Some(c),
            None => if sprite_size16(s) { first_hit_from(cart, sprite_section(s, scanline, 0, true), line, 0) } else { None },
        }
    }
}

/// A reported hit: the column and the line.
pub open spec fn as_hit(c: Option<int>, scanline: u8) -> Option<(u16, u16)> {
    match c {
        Some(x) => Some((x as u16, scanline as u16)),
        None => None,
    }
}

/// The line after the sprite pass, which runs when sprites are shown.
pub open spec fn sprites_row(s: PPUStateModel, cart: CartridgeModel, line: Seq<u8>, scanline: u8) -> Seq<u8> {
    if s.ppumask & PPUMASK_SHOW_SPRITE != 0 { sprites_drawn(s, cart, line, scanline, 64) } else { line }
}

impl PPUState {
    fn sprite_tile(&self, scanline: u8, i: usize, lower: bool) -> (r: TileSection)
        requires
            i < 64,
        ensures
            r == sprite_section(self@, scanline, i as int, lower),
            r.pallete < 8,
            r.pattern_t < 2,
    {
        let pos_y = self.oam[i * 4];
        let tile = self.oam[i * 4 + 1];
        let attr = self.oam[i * 4 + 2];
        let pos_x = self.oam[i * 4 + 3];
        let flipy = attr & 0x80 != 0;
        let size16 = self.ppuctrl & 0x20 != 0;
        assert((attr & 3) < 4) by (bit_vector);
        TileSection {
            x: pos_x as i16,
            y: (pos_y as i16 - scanline as i16 + if lower { 8 } else { 0 }) as i16,
            pallete: (attr & 3) + 4,
            pattern_t: if size16 { tile % 2 } else { (self.ppuctrl / 8) % 2 },
            tile: if !size16 { tile } else if flipy != lower { tile | 1 } else { tile & !1u8 },
            flipx: attr & 0x40 != 0,
            flipy,
            mask_left: self.ppumask & PPUMASK_SHOW_SPRITE_LEFT == 0,
            background: false,
            behind: attr & 0x20 != 0,
        }
    }

    /// The first column where the tile overlaps an opaque pixel of line `row`.
    pub fn find_hit(&self, cart: &Cartridge, t: TileSection, framebuffer: &Vec<u8>, row: usize) -> (r: Option<u16>)
        requires
            t.pattern_t < 2,
            row < SCREEN_HEIGHT,
            framebuffer@.len() == FRAMEBUFFER_LEN,
        ensures
            r matches Some(c) ==> first_hit_from(cart@, t, row_of(framebuffer@, row as int), 0) == Some(c as int),
            r is None ==> first_hit_from(cart@, t, row_of(framebuffer@, row as int), 0) is None,
    {
        reveal(tile_pixel);
        let ghost line = row_of(framebuffer@, row as int);
        assert(row * 256 + 256 <= FRAMEBUFFER_LEN) by (nonlinear_arith)
            requires row < SCREEN_HEIGHT;
        let i: i32 = if t.flipy { t.y as i32 + 7 } else { -(t.y as i32) };
        if i < 0 || i >= 8 {
            proof { lemma_no_hit_off_row(cart@, t, line, 0); }
            return None;
        }
        let base: u16 = (i as u16) + 16 * (t.tile as u16) + 0x1000 * (t.pattern_t as u16);
        let lo = cart.ppu_read(base);
        let hi = cart.ppu_read(base + 8);
        let mut a: i32 = 0;
        while a < 8
            invariant
                0 <= a <= 8,
                0 <= i < 8,
                i == tile_row_index(t),
                base == pattern_addr(t, i as int),
                lo == cart_ppu_read_spec(cart@, base),
                hi == cart_ppu_read_spec(cart@, (base + 8) as u16),
                row * 256 + 256 <= FRAMEBUFFER_LEN,
                framebuffer@.len() == FRAMEBUFFER_LEN,
                line == row_of(framebuffer@, row as int),
                first_hit_from(cart@, t, line, 0) == first_hit_from(cart@, t, line, a as int),
            decreases 8 - a,
        {
            let mask: u8 = 0x80u8 >> (a as u8);
            let ci: usize = (if lo & mask != 0 { 1 } else { 0 }) + (if hi & mask != 0 { 2 } else { 0 });
            let sx: i32 = if t.flipx { t.x as i32 + 7 - a } else { t.x as i32 + a };
            proof {
                assert(ci == color_index(lo, hi, a as int));
                assert(tile_col(t, sx as int) == a);
            }
            if 0 <= sx && sx < 256 && !(t.mask_left && sx < 8) && ci != 0 {
                let px = framebuffer[row * 256 + sx as usize];
                if px & 0x80 != 0 {
                    proof {
                        assert(line[sx as int] == px);
                        assert(hit_at(cart@, t, line, a as int));
                    }
                    return Some(sx as u16);
                }
                proof { assert(line[sx as int] == px); }
            }
            a = a + 1;
        }
        None
    }

    /// Draws the sprites that cross line `row`, from sprite 63 down to sprite 0,
    /// and reports where sprite 0 first overlaps the line as it was before.
    pub fn draw_sprites(&self, cart: &Cartridge, framebuffer: &mut Vec<u8>, row: usize, scanline: u8) -> (r: Option<(u16, u16)>)
        requires
            row < SCREEN_HEIGHT,
            old(framebuffer)@.len() == FRAMEBUFFER_LEN,
        ensures
            only_row_changed(old(framebuffer)@, final(framebuffer)@, row as int),
            row_of(final(framebuffer)@, row as int) == sprites_row(self@, cart@, row_of(old(framebuffer)@, row as int), scanline),
            r == as_hit(sprite0_hit(self@, cart@, row_of(old(framebuffer)@, row as int), scanline), scanline),
    {
        let ghost start = old(framebuffer)@;
        let ghost line = row_of(start, row as int);
        if self.ppumask & PPUMASK_SHOW_SPRITE == 0 {
            return None;
        }
        let size16 = self.ppuctrl & 0x20 != 0;
        let upper = self.sprite_tile(scanline, 0, false);
        let mut hit = self.find_hit(cart, upper, framebuffer, row);
        if hit.is_none() && size16 {
            let lower = self.sprite_tile(scanline, 0, true);
            hit = self.find_hit(cart, lower, framebuffer, row);
        }
        let detected = match hit {
            Some(c) => Some((c, scanline as u16)),
            None => None,
        };
        let mut n: usize = 0;
        while n < 64
            invariant
                n <= 64,
                row < SCREEN_HEIGHT,
                size16 == sprite_size16(self@),
                framebuffer@.len() == FRAMEBUFFER_LEN,
                only_row_changed(start, framebuffer@, row as int),
                row_of(framebuffer@, row as int) == sprites_drawn(self@, cart@, line, scanline, n as nat),
            decreases 64 - n,
        {
            let i = 63 - n;
            let t = self.sprite_tile(scanline, i, false);
            self.draw_tile_section(cart, t, framebuffer, row);
            if size16 {
                let t2 = self.sprite_tile(scanline, i, true);
                self.draw_tile_section(cart, t2, framebuffer, row);
            }
            n = n + 1;
        }
        detected
    }

    /// Draws line `row`: background, then sprites.
    pub fn draw_scanline(&self, cart: &Cartridge, framebuffer: &mut Vec<u8>, row: usize, scanline: u8) -> (r: Option<(u16, u16)>)
        requires
            row < SCREEN_HEIGHT,
            old(framebuffer)@.len() == FRAMEBUFFER_LEN,
        ensures
            only_row_changed(old(framebuffer)@, final(framebuffer)@, row as int),
            row_of(final(framebuffer)@, row as int) == sprites_row(self@, cart@, bg_row(self@, cart@), scanline),
            r == as_hit(sprite0_hit(self@, cart@, bg_row(self@, cart@), scanline), scanline),
    {
        self.draw_background(cart, framebuffer, row);
        self.draw_sprites(cart, framebuffer, row, scanline)
    }
}

} // verus!
