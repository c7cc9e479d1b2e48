use vstd::prelude::*;

verus! {

/// The screen is 64 pixels wide by 32 pixels high. Each row is a 64-bit
/// mask, bit 63 standing for the leftmost pixel; a set bit is a lit pixel.
pub struct Gpu {
    pub buffer: [u64; 32],
    pub has_changed: bool,
}

/// A blank framebuffer: all 32 rows zero.
pub open spec fn blank_rows() -> Seq<u64> {
    Seq::new(32, |i: int| 0u64)
}

/// The 64-bit mask that places an 8-pixel sprite byte at column `x`.
/// For `x <= 56` the byte fits entirely on screen and is shifted left into
/// position; further right it is shifted down instead, so the pixels that
/// would pass column 63 are dropped (clipping, never horizontal wrapping).
pub open spec fn sprite_mask(x: u8, data: u8) -> u64
    recommends
        x < 64,
{
    if x <= 56 {
        (data as u64) << ((56 - x) as u64)
    } else {
        (data as u64) >> ((x - 56) as u64)
    }
}

/// One sprite row drawn at `(x, y)`: rows at `y >= 32` are clipped (the
/// buffer is untouched and nothing collides); otherwise the positioned byte
/// is XORed into row `y`, and the draw collides exactly when it turns some
/// lit pixel off, that is, when the old row and the mask share a bit.
pub open spec fn spec_draw_row(rows: Seq<u64>, x: u8, y: u8, data: u8) -> (Seq<u64>, bool)
    recommends
        rows.len() == 32,
        x < 64,
{
    if y > 31 {
        (rows, false)
    } else {
        let mask = sprite_mask(x, data);
        (rows.update(y as int, rows[y as int] ^ mask), rows[y as int] & mask != 0)
    }
}

impl Gpu {
    pub fn new() -> (g: Gpu)
        ensures
            g.buffer@ == blank_rows(),
            g.has_changed,
    {
        let g = Gpu { buffer: [0u64; 32], has_changed: true };
        proof {
            assert(g.buffer@ =~= blank_rows());
        }
        g
    }

    pub fn clear(&mut self)
        ensures
            final(self).buffer@ == blank_rows(),
            final(self).has_changed == old(self).has_changed,
    {
        let mut i: usize = 0;
        while i < 32
            invariant
                i <= 32,
                self.buffer@.len() == 32,
                forall|j: int| 0 <= j < i ==> self.buffer@[j] == 0u64,
                self.has_changed == old(self).has_changed,
            decreases 32 - i,
        {
            self.buffer[i] = 0;
            i = i + 1;
        }
        proof {
            assert(self.buffer@ =~= blank_rows());
        }
    }

    /// Draw one 8-pixel sprite row at column `x`, row `y`, XOR-compositing it
    /// into the buffer; the result says whether the draw erased a lit pixel.
    pub fn draw_sprite_line(&mut self, x: u8, y: u8, sprite_data: u8) -> (collided: bool)
        requires
            x < 64,
        ensures
            final(self).buffer@ == spec_draw_row(old(self).buffer@, x, y, sprite_data).0,
            collided == spec_draw_row(old(self).buffer@, x, y, sprite_data).1,
            final(self).has_changed == (old(self).has_changed || y <= 31),
    {
        if y > 31 {
            return false;
        }

        self.has_changed = true;

        // shift the sprite byte to the desired x coordinate
        let mask: u64 = if x <= 56 {
            (sprite_data as u64) << ((56 - x) as u64)
        } else {
            (sprite_data as u64) >> ((x - 56) as u64)
        };
        let cleared_any = self.buffer[y as usize] & mask > 0;
        self.buffer[y as usize] = self.buffer[y as usize] ^ mask;

        // true exactly when some bit was flipped back to 0
        cleared_any
    }
}

/// Law: drawing any sprite row twice at the same position restores the
/// buffer, because XOR is its own inverse.
pub proof fn lemma_draw_row_involutive(rows: Seq<u64>, x: u8, y: u8, data: u8)
    requires
        rows.len() == 32,
        x < 64,
    ensures
        spec_draw_row(spec_draw_row(rows, x, y, data).0, x, y, data).0 =~= rows,
{
    if y <= 31 {
        let mask = sprite_mask(x, data);
        let row = rows[y as int];
        assert((row ^ mask) ^ mask == row) by (bit_vector);
    }
}

/// Law: a sprite row whose mask lights at least one pixel on a region of the
/// screen where those pixels are dark does not collide, and drawing it again
/// right away does collide, since the second draw erases the first.
pub proof fn lemma_draw_row_collision(rows: Seq<u64>, x: u8, y: u8, data: u8)
    requires
        rows.len() == 32,
        x < 64,
        y <= 31,
        sprite_mask(x, data) != 0,
        rows[y as int] & sprite_mask(x, data) == 0,
    ensures
        !spec_draw_row(rows, x, y, data).1,
        spec_draw_row(spec_draw_row(rows, x, y, data).0, x, y, data).1,
{
    let mask = sprite_mask(x, data);
    let row = rows[y as int];
    assert(row & mask == 0 && mask != 0 ==> (row ^ mask) & mask != 0) by (bit_vector);
}

/// Law: a draw aimed below the last row is a no-op that reports no collision.
pub proof fn lemma_draw_row_offscreen(rows: Seq<u64>, x: u8, y: u8, data: u8)
    requires
        y >= 32,
    ensures
        spec_draw_row(rows, x, y, data).0 == rows,
        !spec_draw_row(rows, x, y, data).1,
{
}

/// Whether the pixel at row `i`, column `j` is lit: bit 63 of a row is its
/// leftmost pixel.
pub open spec fn pixel_lit(rows: Seq<u64>, i: int, j: int) -> bool
    recommends
        rows.len() == 32,
        0 <= i < 32,
        0 <= j < 64,
{
    rows[i] & (1u64 << ((63 - j) as u64)) != 0
}

/// The framebuffer flattened into one row-major image of 64 by 32 pixels,
/// each pixel painted one of the two given colors. The machine itself has
/// no color notion; the caller picks the pair.
pub fn gpu_to_image_data(buffer: &[u64; 32], color_on: u32, color_off: u32) -> (pixels: Vec<u32>)
    ensures
        pixels@.len() == 32 * 64,
        forall|i: int, j: int|
            0 <= i < 32 && 0 <= j < 64 ==> pixels@[i * 64 + j] == (if pixel_lit(buffer@, i, j) {
                color_on
            } else {
                color_off
            }),
{
    let mut pixels: Vec<u32> = Vec::new();
    let mut i: usize = 0;
    while i < 32
        invariant
            i <= 32,
            pixels@.len() == i * 64,
            forall|r: int, c: int|
                0 <= r < i && 0 <= c < 64 ==> pixels@[r * 64 + c] == (if pixel_lit(
                    buffer@,
                    r,
                    c,
                ) {
                    color_on
                } else {
                    color_off
                }),
        decreases 32 - i,
    {
        let row = buffer[i];
        let mut j: usize = 0;
        while j < 64
            invariant
                i < 32,
                j <= 64,
                row == buffer@[i as int],
                pixels@.len() == i * 64 + j,
                forall|r: int, c: int|
                    0 <= r < i && 0 <= c < 64 ==> pixels@[r * 64 + c] == (if pixel_lit(
                        buffer@,
                        r,
                        c,
                    ) {
                        color_on
                    } else {
                        color_off
                    }),
                forall|c: int|
                    0 <= c < j ==> pixels@[i * 64 + c] == (if pixel_lit(buffer@, i as int, c) {
                        color_on
                    } else {
                        color_off
                    }),
            decreases 64 - j,
        {
            let mask: u64 = 1u64 << ((63 - j) as u64);
            pixels.push(if row & mask > 0 {
                color_on
            } else {
                color_off
            });
            j = j + 1;
        }
        i = i + 1;
    }
    pixels
}

} // verus!
