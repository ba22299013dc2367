//! Turning the screen into a frame of 32-bit colours, each pixel blown up to
//! a square block.

use vstd::prelude::*;
use vstd::arithmetic::div_mod::lemma_fundamental_div_mod_converse;
use crate::display::Display;

verus! {

/// Colour of a set pixel.
pub const COLOR_ON: u32 = 0xffffff;

/// Colour of an unset pixel.
pub const COLOR_OFF: u32 = 0x0;

/// The colour that shows a pixel.
pub open spec fn color_of(set: bool) -> u32 {
    if set {
        COLOR_ON
    } else {
        COLOR_OFF
    }
}

/// The colour of dot `q` of the frame that shows `screen` at `scale`: that of
/// the pixel whose block the dot lies in.
pub open spec fn frame_dot(screen: Seq<bool>, scale: int, q: int) -> u32 {
    let x = q % (64 * scale);
    let y = q / (64 * scale);
    color_of(screen[(y / scale) * 64 + x / scale])
}

/// The frame that shows `screen` with every pixel as a block of `scale` by
/// `scale` dots: `64 * scale` dots per row, rows one after the other.
pub open spec fn scaled_frame(screen: Seq<bool>, scale: int) -> Seq<u32> {
    Seq::new((2048 * scale * scale) as nat, |q: int| frame_dot(screen, scale, q))
}

/// Sizes of a frame and of its rows, for a frame that fits in memory.
proof fn lemma_frame_size(scale: int)
    by (nonlinear_arith)
    requires
        1 <= scale,
    ensures
        (64 * scale) * (32 * scale) == 2048 * scale * scale,
        64 * scale <= 2048 * scale * scale,
        32 * scale <= 2048 * scale * scale,
{
}

/// The dot at column `x` of row `y` stands for a pixel of the screen, and lies
/// in the frame before the dots of all later rows.
proof fn lemma_dot(scale: int, x: int, y: int)
    by (nonlinear_arith)
    requires
        1 <= scale,
        0 <= x < 64 * scale,
        0 <= y < 32 * scale,
    ensures
        0 <= x / scale < 64,
        0 <= y / scale < 32,
        0 <= y * (64 * scale) + x < (y + 1) * (64 * scale),
        (y + 1) * (64 * scale) <= (64 * scale) * (32 * scale),
        (y + 1) * (64 * scale) == y * (64 * scale) + 64 * scale,
{
}

/// Renders the screen for a window of `64 * scale` by `32 * scale` dots.
pub fn render_frame(screen: &[bool; 2048], scale: usize) -> (frame: Vec<u32>)
    requires
        1 <= scale,
        2048 * scale * scale <= usize::MAX,
    ensures
        frame@ == scaled_frame(screen@, scale as int),
{
    proof {
        lemma_frame_size(scale as int);
    }
    let width: usize = 64 * scale;
    let height: usize = 32 * scale;
    let mut frame: Vec<u32> = Vec::new();
    let mut y: usize = 0;
    while y < height
        invariant
            1 <= scale,
            width == 64 * scale,
            height == 32 * scale,
            width * height == 2048 * scale * scale <= usize::MAX,
            y <= height,
            frame@.len() == y * width,
            forall|q: int|
                0 <= q < frame@.len() ==> #[trigger] frame@[q] == frame_dot(
                    screen@,
                    scale as int,
                    q,
                ),
        decreases height - y,
    {
        let mut x: usize = 0;
        while x < width
            invariant
                1 <= scale,
                width == 64 * scale,
                height == 32 * scale,
                width * height == 2048 * scale * scale <= usize::MAX,
                y < height,
                x <= width,
                frame@.len() == y * width + x,
                forall|q: int|
                0 <= q < frame@.len() ==> #[trigger] frame@[q] == frame_dot(
                    screen@,
                    scale as int,
                    q,
                ),
            decreases width - x,
        {
            proof {
                lemma_dot(scale as int, x as int, y as int);
                lemma_fundamental_div_mod_converse(
                    y * width + x,
                    width as int,
                    y as int,
                    x as int,
                );
            }
            let index = Display::get_index_from_coords(x / scale, y / scale);
            let dot: u32 = if screen[index] { COLOR_ON } else { COLOR_OFF };
            frame.push(dot);
            x += 1;
        }
        proof {
            lemma_dot(scale as int, 0, y as int);
        }
        y += 1;
    }
    assert(height * width == width * height) by (nonlinear_arith);
    assert(frame@ =~= scaled_frame(screen@, scale as int));
    frame
}

} // verus!
