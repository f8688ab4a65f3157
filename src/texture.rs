use vstd::prelude::*;

use crate::framebuffer::{lemma_grid_index, row_major};

verus! {

#[verifier::external_type_specification]
#[verifier::external_body]
pub struct ExImageError(image::ImageError);

/// What the image codecs make of an encoded image: its width, its height and
/// its pixels as RGB bytes, row by row from the top; nothing where the bytes
/// are not an image that they can decode.
pub uninterp spec fn rgb8_decoding(bytes: Seq<u8>) -> Option<(u32, u32, Seq<u8>)>;

/// Relies on `image::guess_format`, which picks a built-in format from a
/// fixed table of magic bytes, and `image::load_from_memory_with_format`,
/// which decodes with that built-in format and so bypasses the registries of
/// decoding and detection hooks; then on `DynamicImage::into_rgb8` and
/// `ImageBuffer::into_raw`, which hand the pixels over as RGB bytes. The
/// outcome depends on the bytes alone, and an RGB buffer holds at least three
/// bytes per pixel.
#[verifier::external_body]
fn decode_rgb8(bytes: &[u8]) -> (r: Result<(u32, u32, Vec<u8>), image::ImageError>)
    ensures
        match r {
            Ok((w, h, raw)) => rgb8_decoding(bytes@) == Some((w, h, raw@)) && raw@.len() >= 3 * w
                * h,
            Err(_) => rgb8_decoding(bytes@) is None,
        },
{
    let format = image::guess_format(bytes)?;
    let img = image::load_from_memory_with_format(bytes, format)?.into_rgb8();
    let (width, height) = img.dimensions();
    Ok((width, height, img.into_raw()))
}

/// An RGB sample of an image, one byte per channel.
pub type Texel = (u8, u8, u8);

/// Why an image could not become a texture.
#[derive(Clone, Copy, Debug, PartialEq, Eq, Structural)]
pub enum TextureError {
    /// The bytes are not an image in a format that can be decoded.
    Decode,
    /// The image has no pixels.
    Empty,
    /// Fewer bytes than three per pixel were given.
    Truncated,
}

/// A decoded image: `width` × `height` texels, row by row from the top.
#[derive(Clone, Debug)]
pub struct ImageData {
    width: u32,
    height: u32,
    pixels: Vec<Texel>,
}

/// The first `n` texels of a buffer of RGB bytes.
pub open spec fn texels_of(raw: Seq<u8>, n: nat) -> Seq<Texel> {
    Seq::new(n, |i: int| (raw[3 * i], raw[3 * i + 1], raw[3 * i + 2]))
}

/// The image made of `width` × `height` pixels given as RGB bytes, or why
/// there is none.
pub open spec fn image_from_rgb8(width: u32, height: u32, raw: Seq<u8>) -> Result<
    (u32, u32, Seq<Texel>),
    TextureError,
> {
    if width == 0 || height == 0 {
        Err(TextureError::Empty)
    } else if raw.len() < 3 * width * height {
        Err(TextureError::Truncated)
    } else {
        Ok((width, height, texels_of(raw, (width * height) as nat)))
    }
}

/// The image that an encoded file holds, or why there is none.
pub open spec fn image_from_encoded(bytes: Seq<u8>) -> Result<(u32, u32, Seq<Texel>), TextureError> {
    match rgb8_decoding(bytes) {
        Some((w, h, raw)) => image_from_rgb8(w, h, raw),
        None => Err(TextureError::Decode),
    }
}

/// Size and texels of a loaded image, or the error.
pub open spec fn loaded(r: Result<ImageData, TextureError>) -> Result<
    (u32, u32, Seq<Texel>),
    TextureError,
> {
    match r {
        Ok(img) => Ok((img.spec_width(), img.spec_height(), img@)),
        Err(e) => Err(e),
    }
}

/// Position in the texel sequence of the nearest texel to column `x`, row `y`
/// counted from the bottom edge; coordinates past an edge are clamped to it.
pub open spec fn texel_index(width: int, height: int, x: int, y: int) -> int {
    let cx = if x < width - 1 {
        x
    } else {
        width - 1
    };
    let cy = if y < height - 1 {
        y
    } else {
        height - 1
    };
    row_major(width, cx, height - 1 - cy)
}

impl View for ImageData {
    type V = Seq<Texel>;

    closed spec fn view(&self) -> Seq<Texel> {
        self.pixels@
    }
}

impl ImageData {
    /// At least one pixel, and one texel per pixel.
    pub closed spec fn wf(&self) -> bool {
        &&& self.width > 0
        &&& self.height > 0
        &&& self.pixels@.len() == self.width * self.height
        &&& self.width * self.height <= usize::MAX
    }

    pub closed spec fn spec_width(&self) -> u32 {
        self.width
    }

    pub closed spec fn spec_height(&self) -> u32 {
        self.height
    }

    pub fn width(&self) -> (w: u32)
        ensures
            w == self.spec_width(),
    {
        self.width
    }

    pub fn height(&self) -> (h: u32)
        ensures
            h == self.spec_height(),
    {
        self.height
    }

    /// The image of `width` × `height` pixels whose RGB bytes, row by row from
    /// the top, begin `raw`.
    pub fn from_rgb8(width: u32, height: u32, raw: &Vec<u8>) -> (r: Result<ImageData, TextureError>)
        ensures
            loaded(r) == image_from_rgb8(width, height, raw@),
            r matches Ok(img) ==> img.wf(),
    {
        if width == 0 || height == 0 {
            return Err(TextureError::Empty);
        }
        assert(width * height <= u64::MAX) by (nonlinear_arith)
            requires
                width <= u32::MAX,
                height <= u32::MAX,
        ;
        let count: u64 = width as u64 * height as u64;
        let len: usize = raw.len();
        let available: u64 = (len / 3) as u64;
        if available < count {
            assert(len < 3 * width * height) by (nonlinear_arith)
                requires
                    available == len / 3,
                    count == width * height,
                    available < count,
            ;
            return Err(TextureError::Truncated);
        }
        assert(3 * width * height <= len) by (nonlinear_arith)
            requires
                available == len / 3,
                count == width * height,
                available >= count,
        ;
        let n: usize = count as usize;
        let mut pixels: Vec<Texel> = Vec::new();
        let mut i: usize = 0;
        while i < n
            invariant
                n == width * height,
                3 * n <= raw@.len(),
                raw@.len() <= usize::MAX,
                i <= n,
                pixels@ =~= texels_of(raw@, i as nat),
            decreases n - i,
        {
            let k: usize = 3 * i;
            pixels.push((raw[k], raw[k + 1], raw[k + 2]));
            i = i + 1;
        }
        let img = ImageData { width, height, pixels };
        assert(img@ =~= texels_of(raw@, (width * height) as nat));
        Ok(img)
    }

    /// Decodes an encoded image file (PNG or JPEG) into its texels.
    pub fn decode(bytes: &[u8]) -> (r: Result<ImageData, TextureError>)
        ensures
            loaded(r) == image_from_encoded(bytes@),
            r matches Ok(img) ==> img.wf(),
    {
        match decode_rgb8(bytes) {
            Ok((width, height, raw)) => ImageData::from_rgb8(width, height, &raw),
            Err(_) => Err(TextureError::Decode),
        }
    }

    /// The nearest texel to column `x`, row `y` counted from the bottom edge;
    /// coordinates past the right or top edge are clamped to it.
    pub fn texel(&self, x: u32, y: u32) -> (t: Texel)
        requires
            self.wf(),
        ensures
            t == self@[texel_index(self.spec_width() as int, self.spec_height() as int, x as int, y as int)],
    {
        let cx = if x < self.width - 1 {
            x
        } else {
            self.width - 1
        };
        let cy = if y < self.height - 1 {
            y
        } else {
            self.height - 1
        };
        let flipped = self.height - 1 - cy;
        proof {
            lemma_grid_index(self.width as int, self.height as int, cx as int, flipped as int);
        }
        let idx: usize = flipped as usize * self.width as usize + cx as usize;
        self.pixels[idx]
    }
}

} // verus!
