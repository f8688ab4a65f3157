use std::io::Cursor;

use raytracer::texture::{ImageData, TextureError};

fn ramp_2x2() -> Vec<u8> {
    vec![
        10, 11, 12, 20, 21, 22, //
        30, 31, 32, 40, 41, 42,
    ]
}

#[test]
fn from_rgb8_groups_bytes_into_texels() {
    let img = ImageData::from_rgb8(2, 2, &ramp_2x2()).unwrap();
    assert_eq!(img.width(), 2);
    assert_eq!(img.height(), 2);
    // row counted from the bottom: y = 1 is the top row of the buffer
    assert_eq!(img.texel(0, 1), (10, 11, 12));
    assert_eq!(img.texel(1, 1), (20, 21, 22));
    assert_eq!(img.texel(0, 0), (30, 31, 32));
    assert_eq!(img.texel(1, 0), (40, 41, 42));
}

#[test]
fn texel_coordinates_are_clamped() {
    let img = ImageData::from_rgb8(2, 2, &ramp_2x2()).unwrap();
    assert_eq!(img.texel(2, 0), (40, 41, 42));
    assert_eq!(img.texel(u32::MAX, u32::MAX), (20, 21, 22));
    assert_eq!(img.texel(0, 7), (10, 11, 12));
}

#[test]
fn from_rgb8_rejects_empty_images() {
    assert_eq!(ImageData::from_rgb8(0, 2, &ramp_2x2()).err(), Some(TextureError::Empty));
    assert_eq!(ImageData::from_rgb8(2, 0, &vec![]).err(), Some(TextureError::Empty));
}

#[test]
fn from_rgb8_rejects_short_buffers() {
    let mut raw = ramp_2x2();
    raw.pop();
    assert_eq!(ImageData::from_rgb8(2, 2, &raw).err(), Some(TextureError::Truncated));
}

#[test]
fn from_rgb8_ignores_trailing_bytes() {
    let mut raw = ramp_2x2();
    raw.extend_from_slice(&[1, 2, 3, 4]);
    let img = ImageData::from_rgb8(2, 2, &raw).unwrap();
    assert_eq!(img.texel(1, 0), (40, 41, 42));
}

#[test]
fn decode_reads_a_png() {
    let source = image::RgbImage::from_raw(2, 2, ramp_2x2()).unwrap();
    let mut encoded = Cursor::new(Vec::new());
    source.write_to(&mut encoded, image::ImageFormat::Png).unwrap();
    let img = ImageData::decode(encoded.get_ref()).unwrap();
    assert_eq!((img.width(), img.height()), (2, 2));
    assert_eq!(img.texel(0, 1), (10, 11, 12));
    assert_eq!(img.texel(1, 0), (40, 41, 42));
}

#[test]
fn decode_rejects_bytes_that_are_no_image() {
    let bytes = b"not an image at all".to_vec();
    assert_eq!(ImageData::decode(&bytes).err(), Some(TextureError::Decode));
    assert_eq!(ImageData::decode(&[]).err(), Some(TextureError::Decode));
}
