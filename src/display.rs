use vstd::prelude::*;

verus! {

pub const WIDTH: usize = 64;

pub const HEIGHT: usize = 32;

/// Number of pixels, row-major.
pub const PIXEL_COUNT: usize = 2048;

/// Bit `col` of a sprite row, counted from the most significant bit.
pub open spec fn sprite_bit(row: u8, col: int) -> u8 {
    (row >> ((7 - col) as u8)) & 1u8
}

/// The sprite column that pixel `p` falls in, for a sprite whose left edge is
/// at `x0`; with `wrap` the columns continue past the right edge at the left.
pub open spec fn column_of(p: int, x0: int, wrap: bool) -> int {
    if wrap {
        (p % 64 - x0 + 64) % 64
    } else {
        p % 64 - x0
    }
}

/// The sprite row that pixel `p` falls in, for a sprite whose top edge is at
/// `y0`; with `wrap` the rows continue past the bottom edge at the top.
pub open spec fn row_of(p: int, y0: int, wrap: bool) -> int {
    if wrap {
        (p / 64 - y0 + 32) % 32
    } else {
        p / 64 - y0
    }
}

/// The sprite bit that lands on pixel `p` when `sprite` is drawn at `(x, y)`
/// (zero where no sprite pixel lands).
pub open spec fn bit_at(p: int, x: int, y: int, sprite: Seq<u8>, wrap: bool) -> u8 {
    let col = column_of(p, x % 64, wrap);
    let row = row_of(p, y % 32, wrap);
    if 0 <= col < 8 && 0 <= row < sprite.len() {
        sprite_bit(sprite[row], col)
    } else {
        0u8
    }
}

/// The screen after drawing: each pixel XORed with the sprite bit on it.
pub open spec fn drawn(screen: Seq<u8>, x: int, y: int, sprite: Seq<u8>, wrap: bool) -> Seq<u8> {
    Seq::new(screen.len(), |p: int| screen[p] ^ bit_at(p, x, y, sprite, wrap))
}

/// Whether drawing turns off a pixel that was on.
pub open spec fn collides(screen: Seq<u8>, x: int, y: int, sprite: Seq<u8>, wrap: bool) -> bool {
    exists|p: int| 0 <= p < screen.len() && #[trigger] (screen[p] & bit_at(p, x, y, sprite, wrap)) == 1
}

/// The screen with every pixel off.
pub open spec fn blank() -> Seq<u8> {
    Seq::new(PIXEL_COUNT as nat, |p: int| 0u8)
}

/// Which of the sprite cells before `(j, i)` (row-major) have been drawn.
spec fn before(row: int, col: int, j: int, i: int) -> bool {
    row < j || (row == j && col < i)
}

/// The sprite bit on pixel `p` once the cells before `(j, i)` are drawn.
spec fn partial_bit(p: int, x: int, y: int, sprite: Seq<u8>, wrap: bool, j: int, i: int) -> u8 {
    if before(row_of(p, y % 32, wrap), column_of(p, x % 64, wrap), j, i) {
        bit_at(p, x, y, sprite, wrap)
    } else {
        0u8
    }
}

/// The pixel that sprite cell `(j, i)` lands on, when it lands on one.
spec fn cell_target(x0: int, y0: int, wrap: bool, j: int, i: int) -> Option<int> {
    if wrap {
        Some((x0 + i) % 64 + ((y0 + j) % 32) * 64)
    } else if x0 + i < 64 && y0 + j < 32 {
        Some(x0 + i + (y0 + j) * 64)
    } else {
        None
    }
}

proof fn lemma_zero_bits(a: u8)
    ensures
        a ^ 0u8 == a,
        a & 0u8 == 0,
        0u8 & a == 0,
{
    assert(a ^ 0u8 == a && a & 0u8 == 0 && 0u8 & a == 0) by (bit_vector);
}

/// A sprite cell lands on at most one pixel: exactly the pixels whose row and
/// column are the cell's are its target.
proof fn lemma_cell_target(p: int, x0: int, y0: int, wrap: bool, j: int, i: int)
    requires
        0 <= x0 < 64,
        0 <= y0 < 32,
        0 <= i < 8,
        0 <= j < 16,
        0 <= p < PIXEL_COUNT,
    ensures
        (column_of(p, x0, wrap) == i && row_of(p, y0, wrap) == j) <==> cell_target(x0, y0, wrap, j, i)
            == Some(p),
{
    let px = p % 64;
    let py = p / 64;
    assert(p == px + py * 64 && 0 <= px < 64 && 0 <= py < 32);
    if wrap {
        let tx = (x0 + i) % 64;
        let ty = (y0 + j) % 32;
        assert(0 <= tx < 64 && 0 <= ty < 32);
        if column_of(p, x0, wrap) == i && row_of(p, y0, wrap) == j {
            assert(px == tx);
            assert(py == ty);
        }
        if cell_target(x0, y0, wrap, j, i) == Some(p) {
            assert(p == tx + ty * 64);
            assert(px == tx && py == ty);
        }
    } else {
        if cell_target(x0, y0, wrap, j, i) == Some(p) {
            assert(p == (x0 + i) + (y0 + j) * 64);
            assert(px == x0 + i && py == y0 + j);
        }
    }
}

/// Drawing the same sprite twice at the same place gives back the screen as
/// it was before the first draw.
pub proof fn lemma_draw_twice_restores(screen: Seq<u8>, x: int, y: int, sprite: Seq<u8>, wrap: bool)
    ensures
        drawn(drawn(screen, x, y, sprite, wrap), x, y, sprite, wrap) == screen,
{
    let once = drawn(screen, x, y, sprite, wrap);
    let twice = drawn(once, x, y, sprite, wrap);
    assert forall|p: int| 0 <= p < screen.len() implies #[trigger] twice[p] == screen[p] by {
        let a = screen[p];
        let b = bit_at(p, x, y, sprite, wrap);
        assert((a ^ b) ^ b == a) by (bit_vector);
    }
    assert(twice =~= screen);
}

/// On a cleared screen no draw reports a collision.
pub proof fn lemma_blank_never_collides(x: int, y: int, sprite: Seq<u8>, wrap: bool)
    ensures
        !collides(blank(), x, y, sprite, wrap),
{
    assert forall|p: int| 0 <= p < PIXEL_COUNT implies #[trigger] (blank()[p] & bit_at(
        p,
        x,
        y,
        sprite,
        wrap,
    )) != 1 by {
        lemma_zero_bits(bit_at(p, x, y, sprite, wrap));
    }
}

/// The 64x32 monochrome framebuffer: 1 for a pixel that is on, 0 for off.
pub struct Display {
    pixels: Vec<u8>,
    wrap: bool,
}

impl Display {
    #[verifier::type_invariant]
    spec fn well_formed(self) -> bool {
        self.pixels@.len() == PIXEL_COUNT
    }

    /// The pixels, row-major.
    pub closed spec fn view(&self) -> Seq<u8> {
        self.pixels@
    }

    /// Whether sprites wrap around the screen edges (else they are clipped).
    pub closed spec fn wraps(&self) -> bool {
        self.wrap
    }

    fn blank_pixels() -> (r: Vec<u8>)
        ensures
            r@ == blank(),
    {
        let mut pixels: Vec<u8> = Vec::new();
        let mut k: usize = 0;
        while k < PIXEL_COUNT
            invariant
                k <= PIXEL_COUNT,
                pixels@.len() == k,
                forall|j: int| 0 <= j < k ==> pixels@[j] == 0,
            decreases PIXEL_COUNT - k,
        {
            pixels.push(0);
            k = k + 1;
        }
        assert(pixels@ =~= blank());
        pixels
    }

    /// A blank screen whose sprites are clipped at the edges.
    pub fn new() -> (r: Display)
        ensures
            r@ == blank(),
            !r.wraps(),
    {
        Display::with_wrap(false)
    }

    /// A blank screen; `wrap` chooses whether sprites wrap around the edges
    /// or are clipped there.
    pub fn with_wrap(wrap: bool) -> (r: Display)
        ensures
            r@ == blank(),
            r.wraps() == wrap,
    {
        Display { pixels: Display::blank_pixels(), wrap }
    }

    /// Turns every pixel off.
    pub fn clear(&mut self)
        ensures
            final(self)@ == blank(),
            final(self).wraps() == old(self).wraps(),
    {
        self.pixels = Display::blank_pixels();
    }

    /// Turns on the pixel at column `x`, row `y`.
    pub fn set_pixel(&mut self, x: usize, y: usize)
        requires
            x + y * 64 < PIXEL_COUNT,
        ensures
            final(self)@ == old(self)@.update(x + y * 64, 1u8),
            final(self).wraps() == old(self).wraps(),
    {
        proof {
            use_type_invariant(&*self);
        }
        self.pixels[x + y * 64] = 1;
    }

    /// Turns off the pixel at column `x`, row `y`.
    pub fn unset_pixel(&mut self, x: usize, y: usize)
        requires
            x + y * 64 < PIXEL_COUNT,
        ensures
            final(self)@ == old(self)@.update(x + y * 64, 0u8),
            final(self).wraps() == old(self).wraps(),
    {
        proof {
            use_type_invariant(&*self);
        }
        self.pixels[x + y * 64] = 0;
    }

    /// The pixel at column `x`, row `y`: 1 when on, 0 when off.
    pub fn get_pixel(&self, x: usize, y: usize) -> (r: u8)
        requires
            x + y * 64 < PIXEL_COUNT,
        ensures
            r == self@[x + y * 64],
    {
        proof {
            use_type_invariant(self);
        }
        self.pixels[x + y * 64]
    }

    /// Draws `sprite` (one byte per row, most significant bit leftmost) with
    /// its top-left corner at `(x % 64, y % 32)`, XORing each sprite bit into
    /// the pixel under it. Cells past an edge wrap around or are dropped, as
    /// the display was configured. Returns whether some pixel that was on was
    /// turned off.
    pub fn draw_sprite(&mut self, x: usize, y: usize, sprite: &[u8]) -> (r: bool)
        requires
            sprite@.len() < 16,
        ensures
            final(self)@ == drawn(old(self)@, x as int, y as int, sprite@, old(self).wraps()),
            r == collides(old(self)@, x as int, y as int, sprite@, old(self).wraps()),
            final(self).wraps() == old(self).wraps(),
    {
        proof {
            use_type_invariant(&*self);
        }
        let ghost screen = self.pixels@;
        let ghost wrap = self.wrap;
        let ghost s = sprite@;
        let x0 = x % 64;
        let y0 = y % 32;
        let mut collision = false;
        let mut j: usize = 0;
        proof {
            assert forall|p: int| 0 <= p < PIXEL_COUNT implies #[trigger] self.pixels@[p] == screen[p]
                ^ partial_bit(p, x as int, y as int, s, wrap, 0, 0)
                && (screen[p] & partial_bit(p, x as int, y as int, s, wrap, 0, 0)) == 0 by {
                lemma_zero_bits(screen[p]);
            }
        }
        while j < sprite.len()
            invariant
                x0 == x % 64,
                y0 == y % 32,
                j <= sprite@.len() < 16,
                s == sprite@,
                wrap == self.wrap,
                self.pixels@.len() == PIXEL_COUNT,
                screen.len() == PIXEL_COUNT,
                forall|p: int| 0 <= p < PIXEL_COUNT ==> #[trigger] self.pixels@[p] == screen[p]
                    ^ partial_bit(p, x as int, y as int, s, wrap, j as int, 0),
                collision == exists|p: int| 0 <= p < PIXEL_COUNT
                    && #[trigger] (screen[p] & partial_bit(p, x as int, y as int, s, wrap, j as int, 0)) == 1,
            decreases sprite@.len() - j,
        {
            let row = sprite[j];
            let mut i: usize = 0;
            while i < 8
                invariant
                    x0 == x % 64,
                    y0 == y % 32,
                    j < sprite@.len() < 16,
                    i <= 8,
                    s == sprite@,
                    row == s[j as int],
                    wrap == self.wrap,
                    self.pixels@.len() == PIXEL_COUNT,
                    screen.len() == PIXEL_COUNT,
                    forall|p: int| 0 <= p < PIXEL_COUNT ==> #[trigger] self.pixels@[p] == screen[p]
                        ^ partial_bit(p, x as int, y as int, s, wrap, j as int, i as int),
                    collision == exists|p: int| 0 <= p < PIXEL_COUNT
                        && #[trigger] (screen[p] & partial_bit(p, x as int, y as int, s, wrap, j as int, i as int)) == 1,
                decreases 8 - i,
            {
                let bit: u8 = (row >> (7 - i as u8)) & 1;
                let mut px = x0 + i;
                let mut py = y0 + j;
                if self.wrap {
                    px = px % 64;
                    py = py % 32;
                }
                let ghost target = cell_target(x0 as int, y0 as int, wrap, j as int, i as int);
                let ghost old_pixels = self.pixels@;
                let ghost old_collision = collision;
                if px < 64 && py < 32 {
                    let q = px + py * 64;
                    assert(target == Some(q as int));
                    let pixel = self.pixels[q];
                    if pixel & bit == 1 {
                        collision = true;
                    }
                    self.pixels[q] = pixel ^ bit;
                } else {
                    assert(target is None);
                }
                proof {
                    assert forall|p: int| 0 <= p < PIXEL_COUNT implies
                        partial_bit(p, x as int, y as int, s, wrap, j as int, i + 1)
                        == (if target == Some(p) { bit } else {
                            partial_bit(p, x as int, y as int, s, wrap, j as int, i as int)
                        })
                        && (target == Some(p) ==> partial_bit(p, x as int, y as int, s, wrap, j as int, i as int) == 0)
                    by {
                        lemma_cell_target(p, x0 as int, y0 as int, wrap, j as int, i as int);
                    }
                    assert forall|p: int| 0 <= p < PIXEL_COUNT implies #[trigger] self.pixels@[p]
                        == screen[p] ^ partial_bit(p, x as int, y as int, s, wrap, j as int, i + 1)
                    by {
                        if target == Some(p) {
                            assert(old_pixels[p] == screen[p] ^ 0u8);
                            lemma_zero_bits(screen[p]);
                        }
                    }
                    if collision {
                        if old_collision {
                            let w = choose|p: int| 0 <= p < PIXEL_COUNT
                                && #[trigger] (screen[p] & partial_bit(p, x as int, y as int, s, wrap, j as int, i as int)) == 1;
                            lemma_zero_bits(screen[w]);
                            lemma_cell_target(w, x0 as int, y0 as int, wrap, j as int, i as int);
                            assert((screen[w] & partial_bit(w, x as int, y as int, s, wrap, j as int, i + 1)) == 1);
                        } else {
                            let q = target.unwrap();
                            assert(old_pixels[q] == screen[q] ^ 0u8);
                            lemma_zero_bits(screen[q]);
                            assert((screen[q] & partial_bit(q, x as int, y as int, s, wrap, j as int, i + 1)) == 1);
                        }
                    } else {
                        assert forall|p: int| 0 <= p < PIXEL_COUNT implies
                            #[trigger] (screen[p] & partial_bit(p, x as int, y as int, s, wrap, j as int, i + 1)) != 1
                        by {
                            if target == Some(p) {
                                assert(old_pixels[p] == screen[p] ^ 0u8);
                                lemma_zero_bits(screen[p]);
                            } else {
                                lemma_zero_bits(partial_bit(p, x as int, y as int, s, wrap, j as int, i as int));
                            }
                        }
                    }
                }
                i = i + 1;
            }
            proof {
                assert forall|p: int| 0 <= p < PIXEL_COUNT implies
                    partial_bit(p, x as int, y as int, s, wrap, j + 1, 0)
                    == #[trigger] partial_bit(p, x as int, y as int, s, wrap, j as int, 8) by {
                }
                if collision {
                    let w = choose|p: int| 0 <= p < PIXEL_COUNT
                        && #[trigger] (screen[p] & partial_bit(p, x as int, y as int, s, wrap, j as int, 8)) == 1;
                    assert((screen[w] & partial_bit(w, x as int, y as int, s, wrap, j + 1, 0)) == 1);
                } else {
                    assert forall|p: int| 0 <= p < PIXEL_COUNT implies
                        #[trigger] (screen[p] & partial_bit(p, x as int, y as int, s, wrap, j + 1, 0)) != 1 by {
                        assert(partial_bit(p, x as int, y as int, s, wrap, j + 1, 0)
                            == partial_bit(p, x as int, y as int, s, wrap, j as int, 8));
                    }
                }
            }
            j = j + 1;
        }
        proof {
            assert forall|p: int| 0 <= p < PIXEL_COUNT implies
                #[trigger] partial_bit(p, x as int, y as int, s, wrap, j as int, 0)
                == bit_at(p, x as int, y as int, s, wrap) by {
            }
            assert(self@ =~= drawn(screen, x as int, y as int, s, wrap));
            if collision {
                let w = choose|p: int| 0 <= p < PIXEL_COUNT
                    && #[trigger] (screen[p] & partial_bit(p, x as int, y as int, s, wrap, j as int, 0)) == 1;
                assert((screen[w] & bit_at(w, x as int, y as int, s, wrap)) == 1);
            } else {
                assert forall|p: int| 0 <= p < PIXEL_COUNT implies
                    #[trigger] (screen[p] & bit_at(p, x as int, y as int, s, wrap)) != 1 by {
                    assert(partial_bit(p, x as int, y as int, s, wrap, j as int, 0)
                        == bit_at(p, x as int, y as int, s, wrap));
                }
            }
        }
        collision
    }

    /// All pixels, row-major.
    pub fn get_display(&self) -> (r: &[u8])
        ensures
            r@ == self@,
            r@.len() == PIXEL_COUNT,
    {
        proof {
            use_type_invariant(self);
        }
        self.pixels.as_slice()
    }

    /// A copy of all pixels, row-major.
    pub fn get_display_as_bytes(&self) -> (r: Vec<u8>)
        ensures
            r@ == self@,
    {
        proof {
            use_type_invariant(self);
        }
        let mut r: Vec<u8> = Vec::new();
        let mut k: usize = 0;
        while k < PIXEL_COUNT
            invariant
                k <= PIXEL_COUNT,
                self.pixels@.len() == PIXEL_COUNT,
                r@ == self.pixels@.subrange(0, k as int),
            decreases PIXEL_COUNT - k,
        {
            r.push(self.pixels[k]);
            k = k + 1;
            assert(r@ =~= self.pixels@.subrange(0, k as int));
        }
        assert(r@ =~= self@);
        r
    }
}

} // verus!
