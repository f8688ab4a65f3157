use vstd::arithmetic::div_mod::{
    lemma_fundamental_div_mod, lemma_fundamental_div_mod_converse, lemma_mod_pos_bound,
};
use vstd::prelude::*;

verus! {

/// An RGBA pixel with one byte per channel.
#[derive(Clone, Copy, Debug, PartialEq, Eq, Structural)]
pub struct Color {
    pub r: u8,
    pub g: u8,
    pub b: u8,
    pub a: u8,
}

/// The value of the 32-bit word `0xAARRGGBB` that holds the four channels.
pub open spec fn packed(c: Color) -> int {
    c.a * 0x100_0000 + c.r * 0x1_0000 + c.g * 0x100 + c.b
}

/// The channels held by the 32-bit word `0xAARRGGBB`.
pub open spec fn unpacked(p: u32) -> Color {
    Color {
        r: (p / 0x1_0000 % 0x100) as u8,
        g: (p / 0x100 % 0x100) as u8,
        b: (p % 0x100) as u8,
        a: (p / 0x100_0000) as u8,
    }
}

impl Color {
    /// Packs the channels as `0xAARRGGBB`.
    pub fn to_u32(&self) -> (p: u32)
        ensures
            p == packed(*self),
    {
        let (r, g, b, a) = (self.r, self.g, self.b, self.a);
        let p = ((a as u32) << 24u32) | ((r as u32) << 16u32) | ((g as u32) << 8u32) | (b as u32);
        assert(((a as u32) << 24u32) | ((r as u32) << 16u32) | ((g as u32) << 8u32) | (b as u32)
            == a * 0x100_0000 + r * 0x1_0000 + g * 0x100 + b) by (bit_vector);
        p
    }

    /// Reads the channels back out of a word `0xAARRGGBB`.
    pub fn from_u32(p: u32) -> (c: Color)
        ensures
            c == unpacked(p),
    {
        assert(((p >> 16u32) & 0xff) == p / 0x1_0000 % 0x100) by (bit_vector);
        assert(((p >> 8u32) & 0xff) == p / 0x100 % 0x100) by (bit_vector);
        assert((p & 0xff) == p % 0x100) by (bit_vector);
        assert((p >> 24u32) == p / 0x100_0000) by (bit_vector);
        Color {
            r: ((p >> 16u32) & 0xff) as u8,
            g: ((p >> 8u32) & 0xff) as u8,
            b: (p & 0xff) as u8,
            a: (p >> 24u32) as u8,
        }
    }
}

/// Unpacking a packed pixel gives back its four channels.
pub proof fn lemma_unpack_packed(c: Color)
    ensures
        0 <= packed(c) <= u32::MAX,
        unpacked(packed(c) as u32) == c,
{
    let (r, g, b, a) = (c.r, c.g, c.b, c.a);
    assert(a * 0x100_0000 + r * 0x1_0000 + g * 0x100 + b <= u32::MAX) by (nonlinear_arith)
        requires
            a < 256,
            r < 256,
            g < 256,
            b < 256,
    ;
    let p: u32 = packed(c) as u32;
    assert(p / 0x1_0000 % 0x100 == r && p / 0x100 % 0x100 == g && p % 0x100 == b && p
        / 0x100_0000 == a) by (bit_vector)
        requires
            p == a * 0x100_0000 + r * 0x1_0000 + g * 0x100 + b,
    ;
}

/// Every 32-bit word is the packing of the channels it holds.
pub proof fn lemma_pack_unpacked(p: u32)
    ensures
        packed(unpacked(p)) == p,
{
    assert(p / 0x100_0000 * 0x100_0000 + p / 0x1_0000 % 0x100 * 0x1_0000 + p / 0x100 % 0x100
        * 0x100 + p % 0x100 == p) by (bit_vector);
}

/// A width × height grid of packed pixels, stored row by row from the top.
pub struct Framebuffer {
    width: u32,
    height: u32,
    pixels: Vec<u32>,
}

/// Position in the row-major pixel sequence of column `x`, row `y`.
pub open spec fn row_major(width: int, x: int, y: int) -> int {
    y * width + x
}

/// Column `x`, row `y` of a width × height grid lies inside its row-major sequence.
pub proof fn lemma_grid_index(width: int, height: int, x: int, y: int)
    requires
        0 <= x < width,
        0 <= y < height,
    ensures
        0 <= y * width <= row_major(width, x, y) < width * height,
{
    assert(0 <= y * width) by (nonlinear_arith)
        requires
            0 <= y,
            0 <= width,
    ;
    assert(y * width + x < width * height) by (nonlinear_arith)
        requires
            0 <= x < width,
            0 <= y < height,
    ;
}

/// Distinct cells of a grid of the given width have distinct row-major positions.
pub proof fn lemma_row_major_injective(width: int, x1: int, y1: int, x2: int, y2: int)
    requires
        0 <= x1 < width,
        0 <= x2 < width,
        row_major(width, x1, y1) == row_major(width, x2, y2),
    ensures
        x1 == x2,
        y1 == y2,
{
    let p = row_major(width, x1, y1);
    lemma_fundamental_div_mod_converse(p, width, y1, x1);
    lemma_fundamental_div_mod_converse(p, width, y2, x2);
}

/// Position `i` of the row-major sequence of a grid of the given width is
/// column `i % width` of row `i / width`.
pub proof fn lemma_row_major_of_index(width: int, i: int)
    requires
        width > 0,
        i >= 0,
    ensures
        0 <= i % width < width,
        0 <= i / width,
        row_major(width, i % width, i / width) == i,
{
    lemma_fundamental_div_mod(i, width);
    lemma_mod_pos_bound(i, width);
    assert(0 <= i / width) by (nonlinear_arith)
        requires
            i >= 0,
            width > 0,
            i == width * (i / width) + i % width,
            0 <= i % width < width,
    ;
}

impl View for Framebuffer {
    type V = Seq<u32>;

    closed spec fn view(&self) -> Seq<u32> {
        self.pixels@
    }
}

impl Framebuffer {
    /// One packed word per pixel.
    pub closed spec fn wf(&self) -> bool {
        &&& self.pixels@.len() == self.width * self.height
        &&& self.width * self.height <= usize::MAX
    }

    /// A well-formed framebuffer holds one word per pixel.
    pub proof fn lemma_wf_len(&self)
        requires
            self.wf(),
        ensures
            self@.len() == self.spec_width() * self.spec_height(),
    {
    }

    pub closed spec fn spec_width(&self) -> u32 {
        self.width
    }

    pub closed spec fn spec_height(&self) -> u32 {
        self.height
    }

    /// A framebuffer of the given size with every pixel zero.
    pub fn new(width: u32, height: u32) -> (fb: Framebuffer)
        requires
            width * height <= usize::MAX,
        ensures
            fb.wf(),
            fb.spec_width() == width,
            fb.spec_height() == height,
            fb@ == Seq::new((width * height) as nat, |i: int| 0u32),
    {
        let n: usize = width as usize * height as usize;
        assert(n == width * height);
        let pixels: Vec<u32> = vec![0u32; n];
        assert(pixels@ =~= Seq::new((width * height) as nat, |i: int| 0u32));
        Framebuffer { width, height, pixels }
    }

    pub fn width(&self) -> (w: u32)
        ensures
            w == self.spec_width(),
    {
        self.width
    }

    pub fn height(&self) -> (h: u32)
        ensures
            h == self.spec_height(),
    {
        self.height
    }

    /// The packed pixels, row by row from the top.
    pub fn pixels(&self) -> (p: &Vec<u32>)
        requires
            self.wf(),
        ensures
            p@ == self@,
            p@.len() == self.spec_width() * self.spec_height(),
    {
        &self.pixels
    }

    /// Writes `color` at column `x`, row `y`; a position outside the grid
    /// leaves the framebuffer unchanged.
    pub fn set_pixel(&mut self, x: u32, y: u32, color: Color)
        requires
            old(self).wf(),
        ensures
            final(self).wf(),
            final(self)@.len() == old(self)@.len(),
            final(self).spec_width() == old(self).spec_width(),
            final(self).spec_height() == old(self).spec_height(),
            final(self)@ == if x < old(self).spec_width() && y < old(self).spec_height() {
                old(self)@.update(
                    row_major(old(self).spec_width() as int, x as int, y as int),
                    packed(color) as u32,
                )
            } else {
                old(self)@
            },
    {
        if x < self.width && y < self.height {
            proof {
                lemma_grid_index(self.width as int, self.height as int, x as int, y as int);
            }
            let idx: usize = y as usize * self.width as usize + x as usize;
            let p = color.to_u32();
            self.pixels.set(idx, p);
        }
    }

    /// The pixels unpacked into rows of channels, top row first.
    pub fn to_color_rows(&self) -> (rows: Vec<Vec<Color>>)
        requires
            self.wf(),
        ensures
            rows@.len() == self.spec_height(),
            forall|y: int|
                0 <= y < rows@.len() ==> #[trigger] rows@[y]@.len() == self.spec_width(),
            forall|y: int, x: int|
                0 <= y < self.spec_height() && 0 <= x < self.spec_width() ==> #[trigger] rows@[y]@[x]
                    == unpacked(self@[row_major(self.spec_width() as int, x, y)]),
    {
        let mut rows: Vec<Vec<Color>> = Vec::new();
        let mut y: u32 = 0;
        while y < self.height
            invariant
                y <= self.height,
                self.wf(),
                rows@.len() == y,
                forall|j: int| 0 <= j < y ==> #[trigger] rows@[j]@.len() == self.width,
                forall|j: int, i: int|
                    0 <= j < y && 0 <= i < self.width ==> #[trigger] rows@[j]@[i] == unpacked(
                        self.pixels@[row_major(self.width as int, i, j)],
                    ),
            decreases self.height - y,
        {
            let mut row: Vec<Color> = Vec::new();
            let mut x: u32 = 0;
            while x < self.width
                invariant
                    x <= self.width,
                    y < self.height,
                    self.wf(),
                    row@.len() == x,
                    forall|i: int|
                        0 <= i < x ==> #[trigger] row@[i] == unpacked(
                            self.pixels@[row_major(self.width as int, i, y as int)],
                        ),
                decreases self.width - x,
            {
                proof {
                    lemma_grid_index(self.width as int, self.height as int, x as int, y as int);
                }
                let idx: usize = y as usize * self.width as usize + x as usize;
                row.push(Color::from_u32(self.pixels[idx]));
                x = x + 1;
            }
            rows.push(row);
            y = y + 1;
        }
        rows
    }
}

} // verus!
