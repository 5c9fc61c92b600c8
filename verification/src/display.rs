//! The monochrome framebuffer and the sprite-drawing operation.
//!
//! The display is a fixed 64x32 grid of binary pixels, stored row-major and
//! viewed as a `Seq<bool>` of length 2048. Drawing XORs a sprite into the
//! grid: sprite rows come from memory at the index register, each row
//! contributes its 8 bits left to right, and pixels that would fall beyond
//! the right or bottom edge are clipped (dropped), not wrapped. A collision
//! is any pixel that was on and is turned off by the XOR.

use vstd::prelude::*;

verus! {

/// Pixels per display row.
pub const DISPLAY_WIDTH: usize = 64;

/// Display rows.
pub const DISPLAY_HEIGHT: usize = 32;

/// Total pixel count of the display.
pub const DISPLAY_PIXELS: usize = 2048;

/// The display with every pixel off.
pub open spec fn all_off() -> Seq<bool> {
    Seq::new(DISPLAY_PIXELS as nat, |i: int| false)
}

/// Whether the sprite being drawn covers the display cell `(row, col)` with
/// an on bit.
///
/// The sprite occupies rows `y0 .. y0 + n` and columns `x0 .. x0 + 8`; its
/// `r`-th row is the byte `mem[index + r]`, highest bit leftmost. Cells
/// outside that rectangle (including everything clipped off the screen
/// edges) are not covered.
pub open spec fn sprite_bit(
    mem: Seq<u8>,
    index: u16,
    x0: u8,
    y0: u8,
    n: u8,
    row: int,
    col: int,
) -> bool {
    &&& y0 <= row < y0 + n
    &&& x0 <= col < x0 + 8
    &&& (mem[index + (row - y0)] >> ((7 - (col - x0)) as u8)) & 1 == 1
}

/// The display contents after drawing one sprite onto `d`: each pixel is
/// XORed with the sprite bit that covers it.
pub open spec fn draw_display(
    d: Seq<bool>,
    mem: Seq<u8>,
    index: u16,
    x0: u8,
    y0: u8,
    n: u8,
) -> Seq<bool> {
    Seq::new(d.len(), |i: int| d[i] != sprite_bit(mem, index, x0, y0, n, i / 64, i % 64))
}

/// Whether drawing the sprite onto `d` turns some on pixel off: that is,
/// whether some cell is both on in `d` and covered by an on sprite bit.
pub open spec fn draw_collision(
    d: Seq<bool>,
    mem: Seq<u8>,
    index: u16,
    x0: u8,
    y0: u8,
    n: u8,
) -> bool {
    exists|k: int|
        0 <= k < d.len() && #[trigger] d[k] && sprite_bit(mem, index, x0, y0, n, k / 64, k % 64)
}

/// The 64x32 grid of binary pixels, stored row-major: the pixel at
/// `(row, col)` is entry `row * 64 + col` of the view.
pub struct Display {
    pixels: Vec<bool>,
}

impl View for Display {
    type V = Seq<bool>;

    closed spec fn view(&self) -> Seq<bool> {
        self.pixels@
    }
}

/// A vector holding one off pixel per display cell.
fn off_pixels() -> (v: Vec<bool>)
    ensures
        v@ == all_off(),
{
    let mut v: Vec<bool> = Vec::new();
    while v.len() < DISPLAY_PIXELS
        invariant
            v@.len() <= DISPLAY_PIXELS,
            forall|k: int| 0 <= k < v@.len() ==> !v@[k],
        decreases DISPLAY_PIXELS - v@.len(),
    {
        v.push(false);
    }
    proof {
        assert(v@ =~= all_off());
    }
    v
}

impl Display {
    /// A display is well formed when it holds exactly one pixel per cell.
    pub open spec fn wf(&self) -> bool {
        self@.len() == DISPLAY_PIXELS
    }

    /// A fresh display with every pixel off.
    pub fn new_off() -> (d: Display)
        ensures
            d.wf(),
            d@ == all_off(),
    {
        Display { pixels: off_pixels() }
    }

    /// Read the pixel at `(row, col)`.
    pub fn pixel(&self, row: usize, col: usize) -> (b: bool)
        requires
            self.wf(),
            row < DISPLAY_HEIGHT,
            col < DISPLAY_WIDTH,
        ensures
            b == self@[row * 64 + col],
    {
        self.pixels[row * 64 + col]
    }

    /// Turn every pixel off.
    pub fn clear(&mut self)
        ensures
            final(self).wf(),
            final(self)@ == all_off(),
    {
        self.pixels = off_pixels();
    }

    /// An identical copy of the display, for handing a snapshot to the host.
    pub fn snapshot(&self) -> (d: Display)
        requires
            self.wf(),
        ensures
            d.wf(),
            d@ == self@,
    {
        let mut p: Vec<bool> = Vec::new();
        let mut i: usize = 0;
        while i < self.pixels.len()
            invariant
                i <= self.pixels@.len(),
                p@.len() == i,
                forall|k: int| 0 <= k < i ==> p@[k] == self.pixels@[k],
            decreases self.pixels@.len() - i,
        {
            p.push(self.pixels[i]);
            i = i + 1;
        }
        proof {
            assert(p@ =~= self.pixels@);
        }
        Display { pixels: p }
    }

    /// XOR one sprite into the display, clipping at the right and bottom
    /// edges, and report whether any on pixel was turned off.
    ///
    /// The sprite is the `n` bytes of `mem` starting at `index`, drawn with
    /// its top-left corner at `(y0, x0)`.
    pub fn draw(&mut self, mem: &Vec<u8>, index: u16, x0: u8, y0: u8, n: u8) -> (collision: bool)
        requires
            old(self).wf(),
            x0 < 64,
            y0 < 32,
            mem@.len() == 4096,
            index + n <= 4096,
        ensures
            final(self).wf(),
            final(self)@ == draw_display(old(self)@, mem@, index, x0, y0, n),
            collision == draw_collision(old(self)@, mem@, index, x0, y0, n),
    {
        let ghost pre = old(self)@;
        let mut collision: bool = false;
        let mut i: usize = 0;
        while i < DISPLAY_PIXELS
            invariant
                self.wf(),
                mem@.len() == 4096,
                x0 < 64,
                y0 < 32,
                index + n <= 4096,
                i <= DISPLAY_PIXELS,
                pre.len() == DISPLAY_PIXELS,
                forall|k: int|
                    0 <= k < i ==> self@[k] == (pre[k] != sprite_bit(
                        mem@,
                        index,
                        x0,
                        y0,
                        n,
                        k / 64,
                        k % 64,
                    )),
                forall|k: int| i <= k < DISPLAY_PIXELS ==> self@[k] == pre[k],
                collision == exists|k: int|
                    0 <= k < i && #[trigger] pre[k] && sprite_bit(
                        mem@,
                        index,
                        x0,
                        y0,
                        n,
                        k / 64,
                        k % 64,
                    ),
            decreases DISPLAY_PIXELS - i,
        {
            let row: usize = i / 64;
            let col: usize = i % 64;
            let b: bool = if row >= y0 as usize && row < y0 as usize + n as usize && col
                >= x0 as usize && col < x0 as usize + 8 {
                let byte: u8 = mem[index as usize + (row - y0 as usize)];
                let sh: u8 = 7 - ((col - x0 as usize) as u8);
                (byte >> sh) & 1 == 1
            } else {
                false
            };
            assert(b == sprite_bit(mem@, index, x0, y0, n, i as int / 64, i as int % 64));
            let oldp: bool = self.pixels[i];
            if oldp && b {
                collision = true;
                assert(pre[i as int] && sprite_bit(
                    mem@,
                    index,
                    x0,
                    y0,
                    n,
                    i as int / 64,
                    i as int % 64,
                ));
            }
            self.pixels[i] = oldp != b;
            i = i + 1;
        }
        proof {
            assert(self@ =~= draw_display(pre, mem@, index, x0, y0, n));
        }
        collision
    }
}

} // verus!
