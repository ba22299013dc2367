//! The 64x32 monochrome display surface: clearing and XOR-blitting of sprite rows.

use vstd::prelude::*;

verus! {

/// Pixels per row.
pub const DISPLAY_WIDTH: usize = 64;

/// Rows on the screen.
pub const DISPLAY_HEIGHT: usize = 32;

/// Pixels on the screen, stored row by row.
pub const PIXEL_COUNT: usize = 2048;

/// A screen with every pixel unset.
pub open spec fn blank_screen() -> Seq<bool> {
    Seq::new(PIXEL_COUNT as nat, |p: int| false)
}

/// Whether the bit of `byte` drawn `k` columns right of a sprite row's left
/// edge is set. Column 0 takes the most significant bit; a row is 8 wide.
pub open spec fn sprite_bit(byte: u8, k: int) -> bool {
    0 <= k < 8 && (byte >> ((7 - k) as u8)) & 1u8 == 1u8
}

/// How many columns the pixel stored at position `p` lies to the right of
/// column `x mod 64`, counting on from column 0 past the right edge.
#[verifier::opaque]
pub open spec fn column_offset(x: u8, p: int) -> int {
    (p % 64 - x as int) % 64
}

/// Where the pixel is stored that lies `k` columns right of column `x mod 64`
/// in row `y mod 32`.
pub open spec fn pixel_position(x: u8, y: u8, k: int) -> int {
    (y as int % 32) * 64 + (x as int + k) % 64
}

/// `pixel_position(x, y, k)` is on the screen, in row `y mod 32`, at offset
/// `k` from `x`, and no other pixel of that row is at that offset.
pub proof fn lemma_pixel_position(x: u8, y: u8, k: int)
    requires
        0 <= k < 64,
    ensures
        0 <= pixel_position(x, y, k) < PIXEL_COUNT,
        pixel_position(x, y, k) / 64 == y as int % 32,
        column_offset(x, pixel_position(x, y, k)) == k,
        forall|p: int|
            0 <= p < PIXEL_COUNT && p / 64 == y as int % 32 && #[trigger] column_offset(x, p) == k
                ==> p == pixel_position(x, y, k),
{
    reveal(column_offset);
}

/// Whether drawing `byte` at `(x, y)` toggles the pixel stored at position `p`.
/// The row is `y mod 32`; the columns are `x mod 64` and the seven after it,
/// continuing at column 0 past the right edge.
pub open spec fn row_mask(byte: u8, x: u8, y: u8, p: int) -> bool {
    p / 64 == y as int % 32 && sprite_bit(byte, column_offset(x, p))
}

/// The screen after `byte` was XORed onto `screen` at `(x, y)`.
pub open spec fn draw_byte_screen(screen: Seq<bool>, byte: u8, x: u8, y: u8) -> Seq<bool> {
    Seq::new(screen.len(), |p: int| screen[p] != row_mask(byte, x, y, p))
}

/// Whether XORing `byte` onto `screen` at `(x, y)` turns a set pixel off.
pub open spec fn draw_byte_collides(screen: Seq<bool>, byte: u8, x: u8, y: u8) -> bool {
    exists|p: int| 0 <= p < screen.len() && #[trigger] screen[p] && row_mask(byte, x, y, p)
}

/// Drawing a byte at `(x, y)` toggles, for each of its bits that is set, the
/// pixel as many columns right of `(x mod 64, y mod 32)` as the bit is from
/// the left of the byte, and leaves every other pixel as it was.
pub proof fn lemma_draw_byte_pixels(screen: Seq<bool>, byte: u8, x: u8, y: u8)
    requires
        screen.len() == PIXEL_COUNT,
    ensures
        draw_byte_screen(screen, byte, x, y).len() == PIXEL_COUNT,
        forall|k: int|
            0 <= k < 8 ==> draw_byte_screen(screen, byte, x, y)[#[trigger] pixel_position(x, y, k)]
                == (screen[pixel_position(x, y, k)] != sprite_bit(byte, k)),
        forall|p: int|
            0 <= p < PIXEL_COUNT && !row_mask(byte, x, y, p) ==> #[trigger] draw_byte_screen(
                screen,
                byte,
                x,
                y,
            )[p] == screen[p],
        forall|p: int|
            0 <= p < PIXEL_COUNT && #[trigger] row_mask(byte, x, y, p) ==> exists|k: int|
                0 <= k < 8 && p == #[trigger] pixel_position(x, y, k),
{
    assert forall|k: int| 0 <= k < 8 implies draw_byte_screen(
        screen,
        byte,
        x,
        y,
    )[#[trigger] pixel_position(x, y, k)] == (screen[pixel_position(x, y, k)] != sprite_bit(
        byte,
        k,
    )) by {
        lemma_pixel_position(x, y, k);
    }
    assert forall|p: int| 0 <= p < PIXEL_COUNT && #[trigger] row_mask(
        byte,
        x,
        y,
        p,
    ) implies exists|k: int| 0 <= k < 8 && p == #[trigger] pixel_position(x, y, k) by {
        let k = column_offset(x, p);
        lemma_pixel_position(x, y, k);
        assert(p == pixel_position(x, y, k));
    }
}

/// The row on which row `r` of a sprite drawn at height `y` lands: rows
/// follow one another downwards and continue at the top past the bottom edge.
pub open spec fn sprite_row(y: u8, r: int) -> u8 {
    ((y as int + r) % 32) as u8
}

/// The screen after the rows of `sprite` were XORed onto `screen`, first row
/// at `(x, y)`, each later row one further down.
pub open spec fn draw_sprite_screen(screen: Seq<bool>, sprite: Seq<u8>, x: u8, y: u8) -> Seq<bool>
    decreases sprite.len(),
{
    if sprite.len() == 0 {
        screen
    } else {
        draw_byte_screen(
            draw_sprite_screen(screen, sprite.drop_last(), x, y),
            sprite.last(),
            x,
            sprite_row(y, sprite.len() - 1),
        )
    }
}

/// Whether drawing the rows of `sprite` one after the other turns a set pixel
/// off at any row.
pub open spec fn draw_sprite_collides(screen: Seq<bool>, sprite: Seq<u8>, x: u8, y: u8) -> bool
    decreases sprite.len(),
{
    if sprite.len() == 0 {
        false
    } else {
        draw_sprite_collides(screen, sprite.drop_last(), x, y) || draw_byte_collides(
            draw_sprite_screen(screen, sprite.drop_last(), x, y),
            sprite.last(),
            x,
            sprite_row(y, sprite.len() - 1),
        )
    }
}

/// Whether drawing the rows of `sprite` at `(x, y)` leaves the pixel stored at
/// position `p` changed: whether an odd number of rows toggle it.
pub open spec fn sprite_toggles(sprite: Seq<u8>, x: u8, y: u8, p: int) -> bool
    decreases sprite.len(),
{
    if sprite.len() == 0 {
        false
    } else {
        sprite_toggles(sprite.drop_last(), x, y, p) != row_mask(
            sprite.last(),
            x,
            sprite_row(y, sprite.len() - 1),
            p,
        )
    }
}

/// Drawing a sprite keeps the size of the screen and changes exactly the
/// pixels that an odd number of its rows toggle.
pub proof fn lemma_draw_sprite_pixels(screen: Seq<bool>, sprite: Seq<u8>, x: u8, y: u8)
    ensures
        draw_sprite_screen(screen, sprite, x, y).len() == screen.len(),
        forall|p: int|
            0 <= p < screen.len() ==> #[trigger] draw_sprite_screen(screen, sprite, x, y)[p] == (
            screen[p] != sprite_toggles(sprite, x, y, p)),
    decreases sprite.len(),
{
    if sprite.len() > 0 {
        lemma_draw_sprite_pixels(screen, sprite.drop_last(), x, y);
    }
}

/// A set pixel that a sprite leaves changed was turned off at some row, so
/// drawing the sprite reports a collision.
pub proof fn lemma_toggled_set_pixel_collides(
    screen: Seq<bool>,
    sprite: Seq<u8>,
    x: u8,
    y: u8,
    p: int,
)
    requires
        0 <= p < screen.len(),
        screen[p],
        sprite_toggles(sprite, x, y, p),
    ensures
        draw_sprite_collides(screen, sprite, x, y),
    decreases sprite.len(),
{
    let rest = sprite.drop_last();
    if sprite_toggles(rest, x, y, p) {
        lemma_toggled_set_pixel_collides(screen, rest, x, y, p);
    } else {
        lemma_draw_sprite_pixels(screen, rest, x, y);
        let before = draw_sprite_screen(screen, rest, x, y);
        assert(before[p] && row_mask(sprite.last(), x, sprite_row(y, sprite.len() - 1), p));
    }
}

/// A pixel that a sprite leaves changed lies on the row of one of its rows.
proof fn lemma_toggled_pixel_row(sprite: Seq<u8>, x: u8, y: u8, p: int)
    requires
        sprite_toggles(sprite, x, y, p),
    ensures
        exists|r: int| 0 <= r < sprite.len() && p / 64 == #[trigger] sprite_row(y, r) as int,
    decreases sprite.len(),
{
    let rest = sprite.drop_last();
    let last = sprite.len() - 1;
    if sprite_toggles(rest, x, y, p) {
        lemma_toggled_pixel_row(rest, x, y, p);
        let r = choose|r: int| 0 <= r < rest.len() && p / 64 == #[trigger] sprite_row(y, r) as int;
        assert(0 <= r < sprite.len() && p / 64 == sprite_row(y, r) as int);
    } else {
        assert(p / 64 == sprite_row(y, last) as int);
    }
}

/// Two different rows of a sprite of at most 32 rows land on different rows
/// of the screen.
proof fn lemma_sprite_rows_apart(y: u8, r1: int, r2: int)
    requires
        0 <= r1 < r2 < 32,
    ensures
        sprite_row(y, r1) != sprite_row(y, r2),
{
}

/// For a sprite of at most 32 rows, a collision is a pixel that was set
/// before the sprite was drawn and is unset after it.
pub proof fn lemma_sprite_collision_meaning(screen: Seq<bool>, sprite: Seq<u8>, x: u8, y: u8)
    requires
        sprite.len() <= 32,
    ensures
        draw_sprite_collides(screen, sprite, x, y) <==> exists|p: int|
            0 <= p < screen.len() && #[trigger] screen[p] && !draw_sprite_screen(
                screen,
                sprite,
                x,
                y,
            )[p],
    decreases sprite.len(),
{
    let after = draw_sprite_screen(screen, sprite, x, y);
    lemma_draw_sprite_pixels(screen, sprite, x, y);
    if exists|p: int| 0 <= p < screen.len() && #[trigger] screen[p] && !after[p] {
        let p = choose|p: int| 0 <= p < screen.len() && #[trigger] screen[p] && !after[p];
        lemma_toggled_set_pixel_collides(screen, sprite, x, y, p);
    }
    if draw_sprite_collides(screen, sprite, x, y) {
        let rest = sprite.drop_last();
        let last = sprite.len() - 1;
        let before = draw_sprite_screen(screen, rest, x, y);
        lemma_draw_sprite_pixels(screen, rest, x, y);
        lemma_sprite_collision_meaning(screen, rest, x, y);
        let p = if draw_sprite_collides(screen, rest, x, y) {
            choose|p: int| 0 <= p < screen.len() && #[trigger] screen[p] && !before[p]
        } else {
            choose|p: int|
                0 <= p < before.len() && #[trigger] before[p] && row_mask(
                    sprite.last(),
                    x,
                    sprite_row(y, last),
                    p,
                )
        };
        if sprite_toggles(rest, x, y, p) {
            lemma_toggled_pixel_row(rest, x, y, p);
            let r = choose|r: int|
                0 <= r < rest.len() && p / 64 == #[trigger] sprite_row(y, r) as int;
            lemma_sprite_rows_apart(y, r, last);
        }
        assert(screen[p] && !after[p]);
    }
}

/// Drawing the same sprite twice at the same place leaves every pixel as it
/// was before the first draw.
pub proof fn lemma_draw_sprite_twice_restores(screen: Seq<bool>, sprite: Seq<u8>, x: u8, y: u8)
    ensures
        draw_sprite_screen(draw_sprite_screen(screen, sprite, x, y), sprite, x, y) == screen,
{
    let once = draw_sprite_screen(screen, sprite, x, y);
    lemma_draw_sprite_pixels(screen, sprite, x, y);
    lemma_draw_sprite_pixels(once, sprite, x, y);
    assert(draw_sprite_screen(once, sprite, x, y) =~= screen);
}

/// Where the first draw of a sprite turned some pixel on, drawing the same
/// sprite again at the same place reports a collision.
pub proof fn lemma_draw_sprite_twice_collides(screen: Seq<bool>, sprite: Seq<u8>, x: u8, y: u8)
    requires
        exists|p: int|
            0 <= p < screen.len() && !screen[p] && #[trigger] draw_sprite_screen(
                screen,
                sprite,
                x,
                y,
            )[p],
    ensures
        draw_sprite_collides(draw_sprite_screen(screen, sprite, x, y), sprite, x, y),
{
    let once = draw_sprite_screen(screen, sprite, x, y);
    let p = choose|p: int| 0 <= p < screen.len() && !screen[p] && #[trigger] once[p];
    lemma_draw_sprite_pixels(screen, sprite, x, y);
    lemma_toggled_set_pixel_collides(once, sprite, x, y, p);
}

/// The screen.
pub struct Display {
    /// The pixels row by row, pixel `(x, y)` at position `y * 64 + x`.
    pub pixels: [bool; 2048],
}

impl View for Display {
    type V = Seq<bool>;

    open spec fn view(&self) -> Seq<bool> {
        self.pixels@
    }
}

impl Display {
    /// A blank screen.
    pub fn new() -> (display: Display)
        ensures
            display@ == blank_screen(),
    {
        let display = Display { pixels: [false; 2048] };
        assert(display@ =~= blank_screen());
        display
    }

    /// Position of pixel `(x, y)` in the row-by-row buffer.
    pub fn get_index_from_coords(x: usize, y: usize) -> (index: usize)
        requires
            x < DISPLAY_WIDTH,
            y < DISPLAY_HEIGHT,
        ensures
            index == y * 64 + x,
            index < PIXEL_COUNT,
    {
        y * 64 + x
    }

    /// The whole pixel buffer, row by row.
    pub fn get_display_buffer(&self) -> (buffer: &[bool; 2048])
        ensures
            buffer@ == self@,
    {
        &self.pixels
    }

    /// Whether pixel `(x, y)` is set.
    pub fn pixel(&self, x: usize, y: usize) -> (set: bool)
        requires
            x < DISPLAY_WIDTH,
            y < DISPLAY_HEIGHT,
        ensures
            set == self@[y * 64 + x],
    {
        self.pixels[y * 64 + x]
    }

    /// Unsets every pixel, whatever the screen held.
    pub fn clear(&mut self)
        ensures
            final(self)@ == blank_screen(),
    {
        let mut p: usize = 0;
        while p < 2048
            invariant
                p <= 2048,
                forall|q: int| 0 <= q < p ==> self.pixels@[q] == false,
            decreases 2048 - p,
        {
            self.pixels[p] = false;
            p += 1;
        }
        assert(self@ =~= blank_screen());
    }

    /// XORs the eight bits of `byte` onto the row `y mod 32`, starting at
    /// column `x mod 64` and wrapping past the right edge. Reports whether a
    /// pixel that was set is now unset.
    pub fn draw_byte(&mut self, byte: u8, x: u8, y: u8) -> (collision: bool)
        ensures
            final(self)@ == draw_byte_screen(old(self)@, byte, x, y),
            collision == draw_byte_collides(old(self)@, byte, x, y),
    {
        let row: usize = (y % 32) as usize;
        let left: usize = (x % 64) as usize;
        let mut collision = false;
        let mut k: u8 = 0;
        while k < 8
            invariant
                k <= 8,
                row == y as int % 32,
                left == x as int % 64,
                forall|p: int|
                    0 <= p < 2048 ==> #[trigger] self.pixels@[p] == (old(self)@[p] != (row_mask(
                        byte,
                        x,
                        y,
                        p,
                    ) && column_offset(x, p) < k)),
                collision == (exists|p: int|
                    0 <= p < 2048 && #[trigger] old(self)@[p] && row_mask(byte, x, y, p)
                        && column_offset(x, p) < k),
            decreases 8 - k,
        {
            let column: usize = (left + k as usize) % 64;
            let index: usize = row * 64 + column;
            let bit: bool = (byte >> (7 - k)) & 1 == 1;
            let ghost hit_before = collision;
            proof {
                lemma_pixel_position(x, y, k as int);
                assert(index == pixel_position(x, y, k as int));
                assert(bit == sprite_bit(byte, k as int));
                assert(bit == row_mask(byte, x, y, index as int));
                assert(self.pixels@[index as int] == old(self)@[index as int]);
            }
            if bit {
                if self.pixels[index] {
                    collision = true;
                }
                self.pixels[index] = !self.pixels[index];
            }
            proof {
                assert forall|p: int| 0 <= p < 2048 implies #[trigger] self.pixels@[p] == (old(
                    self,
                )@[p] != (row_mask(byte, x, y, p) && column_offset(x, p) < k + 1)) by {
                    if row_mask(byte, x, y, p) && column_offset(x, p) == k as int {
                        assert(p == index as int);
                    }
                }
                if collision {
                    let q = if hit_before {
                        choose|p: int|
                            0 <= p < 2048 && #[trigger] old(self)@[p] && row_mask(byte, x, y, p)
                                && column_offset(x, p) < k
                    } else {
                        index as int
                    };
                    assert(0 <= q < 2048 && old(self)@[q] && row_mask(byte, x, y, q)
                        && column_offset(x, q) < k + 1);
                } else {
                    assert forall|p: int|
                        0 <= p < 2048 && #[trigger] old(self)@[p] && row_mask(
                            byte,
                            x,
                            y,
                            p,
                        ) implies !(column_offset(x, p) < k + 1) by {
                        if column_offset(x, p) == k as int {
                            assert(p == index as int);
                        }
                    }
                }
            }
            k += 1;
        }
        assert(self@ =~= draw_byte_screen(old(self)@, byte, x, y));
        collision
    }
}

} // verus!
