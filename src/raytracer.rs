use vstd::prelude::*;

use crate::framebuffer::{
    lemma_grid_index, lemma_row_major_injective, lemma_row_major_of_index, packed, row_major, Color, Framebuffer,
};
use crate::quality::RenderQuality;

verus! {

/// Output size and recursion budget of a render, as set by a quality level.
#[derive(Clone, Copy, Debug, PartialEq, Eq, Structural)]
pub struct Raytracer {
    pub width: u32,
    pub height: u32,
    pub max_depth: i32,
    pub quality: RenderQuality,
}

/// Where one pixel of the row-major sweep lies: its column, its row from the
/// top, and its row counted from the bottom edge (the numerator of its
/// vertical viewport coordinate).
#[derive(Clone, Copy, Debug, PartialEq, Eq, Structural)]
pub struct PixelCoord {
    pub x: u32,
    pub y: u32,
    pub row_from_bottom: u32,
}

/// The word at column `x`, row `y` of a framebuffer of width `fb_width` that
/// held `before`, once the first `n` pixels of a `width` × `height` frame,
/// listed row by row in `colors`, have been stored into it.
pub open spec fn stored_word(
    before: Seq<u32>,
    fb_width: int,
    width: int,
    height: int,
    colors: Seq<Color>,
    n: int,
    x: int,
    y: int,
) -> u32 {
    if x < width && y < height && row_major(width, x, y) < n {
        packed(colors[row_major(width, x, y)]) as u32
    } else {
        before[row_major(fb_width, x, y)]
    }
}

/// Storing a complete frame into two framebuffers of the frame's size,
/// whatever each held before, leaves them equal cell by cell: every cell holds
/// the packed pixel of the frame.
pub proof fn lemma_full_frame_determines_buffer(
    before1: Seq<u32>,
    before2: Seq<u32>,
    width: int,
    height: int,
    colors: Seq<Color>,
    x: int,
    y: int,
)
    requires
        colors.len() == width * height,
        0 <= x < width,
        0 <= y < height,
    ensures
        stored_word(before1, width, width, height, colors, colors.len() as int, x, y)
            == stored_word(before2, width, width, height, colors, colors.len() as int, x, y),
        stored_word(before1, width, width, height, colors, colors.len() as int, x, y) == packed(
            colors[row_major(width, x, y)],
        ) as u32,
{
    lemma_grid_index(width, height, x, y);
}

impl Raytracer {
    /// The parameters that the quality level `q` sets.
    pub open spec fn matches_quality(self, q: RenderQuality) -> bool {
        &&& self.quality == q
        &&& (self.width, self.height) == q.spec_dimensions()
        &&& self.max_depth == q.spec_max_depth()
    }

    /// A ray tracer rendering at the given quality level.
    pub fn with_config(quality: RenderQuality) -> (rt: Raytracer)
        ensures
            rt.matches_quality(quality),
    {
        let (width, height) = quality.dimensions();
        Raytracer { width, height, max_depth: quality.max_depth(), quality }
    }

    /// Switches resolution and recursion depth together to those of `quality`.
    pub fn set_quality(&mut self, quality: RenderQuality)
        ensures
            final(self).matches_quality(quality),
    {
        self.quality = quality;
        let (width, height) = quality.dimensions();
        self.width = width;
        self.height = height;
        self.max_depth = quality.max_depth();
    }

    /// Position of pixel `idx` in the row-major sweep of the image.
    pub fn pixel_coord(&self, idx: usize) -> (p: PixelCoord)
        requires
            idx < self.width * self.height,
        ensures
            p.x == idx as int % (self.width as int),
            p.y == idx as int / (self.width as int),
            p.row_from_bottom == self.height - 1 - idx as int / (self.width as int),
            row_major(self.width as int, p.x as int, p.y as int) == idx,
    {
        assert(self.width > 0) by (nonlinear_arith)
            requires
                idx < self.width * self.height,
        ;
        let w = self.width as usize;
        let x = idx % w;
        let y = idx / w;
        proof {
            lemma_row_major_of_index(w as int, idx as int);
            if y >= self.height {
                assert(idx >= self.width * self.height) by (nonlinear_arith)
                    requires
                        idx == y * w + x,
                        w == self.width,
                        y >= self.height,
                        x >= 0,
                ;
            }
        }
        PixelCoord { x: x as u32, y: y as u32, row_from_bottom: self.height - 1 - y as u32 }
    }

    /// Writes the rendered pixels, given in row-major order of this ray
    /// tracer's image, into `fb`; cells outside either grid are skipped.
    pub fn store_frame(&self, colors: &Vec<Color>, fb: &mut Framebuffer)
        requires
            old(fb).wf(),
        ensures
            final(fb).wf(),
            final(fb).spec_width() == old(fb).spec_width(),
            final(fb).spec_height() == old(fb).spec_height(),
            final(fb)@.len() == old(fb)@.len(),
            forall|x: int, y: int|
                0 <= x < old(fb).spec_width() && 0 <= y < old(fb).spec_height()
                    ==> #[trigger] final(fb)@[row_major(old(fb).spec_width() as int, x, y)]
                    == stored_word(
                    old(fb)@,
                    old(fb).spec_width() as int,
                    self.width as int,
                    self.height as int,
                    colors@,
                    colors@.len() as int,
                    x,
                    y,
                ),
    {
        if self.width == 0 {
            return;
        }
        let w = self.width as usize;
        let ghost fw = fb.spec_width() as int;
        let ghost fh = fb.spec_height() as int;
        let ghost start = fb@;
        proof {
            fb.lemma_wf_len();
        }
        let mut i: usize = 0;
        while i < colors.len()
            invariant
                w == self.width,
                w > 0,
                i <= colors@.len(),
                fb.wf(),
                fb.spec_width() == fw,
                fb.spec_height() == fh,
                fb@.len() == start.len(),
                start.len() == fw * fh,
                forall|x: int, y: int|
                    0 <= x < fw && 0 <= y < fh ==> #[trigger] fb@[row_major(fw, x, y)]
                        == stored_word(
                        start,
                        fw,
                        self.width as int,
                        self.height as int,
                        colors@,
                        i as int,
                        x,
                        y,
                    ),
            decreases colors@.len() - i,
        {
            let x = i % w;
            let y = i / w;
            proof {
                lemma_row_major_of_index(w as int, i as int);
            }
            let ghost before = fb@;
            if y < self.height as usize {
                fb.set_pixel(x as u32, y as u32, colors[i]);
            }
            proof {
                if x < fw && y < fh {
                    lemma_grid_index(fw, fh, x as int, y as int);
                }
                assert forall|xx: int, yy: int| 0 <= xx < fw && 0 <= yy < fh implies #[trigger] fb@[row_major(fw, xx, yy)]
                    == stored_word(start, fw, self.width as int, self.height as int, colors@, i + 1, xx, yy) by {
                    lemma_grid_index(fw, fh, xx, yy);
                    if xx < self.width && row_major(self.width as int, xx, yy) == i {
                        lemma_row_major_injective(self.width as int, xx, yy, x as int, y as int);
                    }
                    if x < fw && y < fh && row_major(fw, xx, yy) == row_major(fw, x as int, y as int) {
                        lemma_row_major_injective(fw, xx, yy, x as int, y as int);
                    }
                    assert(before[row_major(fw, xx, yy)] == stored_word(start, fw, self.width as int, self.height as int, colors@, i as int, xx, yy));
                }
            }
            i = i + 1;
        }
    }
}

} // verus!
