use raytracer::framebuffer::{Color, Framebuffer};

fn rgba(r: u8, g: u8, b: u8, a: u8) -> Color {
    Color { r, g, b, a }
}

#[test]
fn to_u32_packs_argb() {
    assert_eq!(rgba(0x12, 0x34, 0x56, 0x78).to_u32(), 0x7812_3456);
    assert_eq!(rgba(255, 0, 0, 255).to_u32(), 0xFFFF_0000);
    assert_eq!(rgba(0, 0, 0, 0).to_u32(), 0);
    assert_eq!(rgba(255, 255, 255, 255).to_u32(), u32::MAX);
}

#[test]
fn from_u32_reads_channels() {
    assert_eq!(Color::from_u32(0x7812_3456), rgba(0x12, 0x34, 0x56, 0x78));
    assert_eq!(Color::from_u32(0xFF00_00FF), rgba(0, 0, 255, 255));
}

#[test]
fn packing_round_trips() {
    for &c in &[rgba(1, 2, 3, 4), rgba(200, 100, 50, 255), rgba(0, 255, 0, 128)] {
        assert_eq!(Color::from_u32(c.to_u32()), c);
    }
    for &p in &[0u32, 1, 0xDEAD_BEEF, 0x00FF_FF00, u32::MAX] {
        assert_eq!(Color::from_u32(p).to_u32(), p);
    }
}

#[test]
fn new_framebuffer_is_zeroed() {
    let fb = Framebuffer::new(4, 3);
    assert_eq!(fb.width(), 4);
    assert_eq!(fb.height(), 3);
    assert_eq!(fb.pixels().len(), 12);
    assert!(fb.pixels().iter().all(|&p| p == 0));
}

#[test]
fn empty_framebuffer() {
    let fb = Framebuffer::new(0, 5);
    assert_eq!(fb.pixels().len(), 0);
    assert_eq!(fb.to_color_rows().len(), 5);
    assert!(fb.to_color_rows().iter().all(|row| row.is_empty()));
}

#[test]
fn set_pixel_writes_row_major() {
    let mut fb = Framebuffer::new(4, 3);
    fb.set_pixel(1, 2, rgba(10, 20, 30, 255));
    assert_eq!(fb.pixels()[2 * 4 + 1], 0xFF0A_141E);
    assert_eq!(fb.pixels().iter().filter(|&&p| p != 0).count(), 1);
    fb.set_pixel(3, 0, rgba(1, 1, 1, 1));
    assert_eq!(fb.pixels()[3], 0x0101_0101);
}

#[test]
fn set_pixel_out_of_bounds_is_ignored() {
    let mut fb = Framebuffer::new(4, 3);
    fb.set_pixel(4, 0, rgba(255, 255, 255, 255));
    fb.set_pixel(0, 3, rgba(255, 255, 255, 255));
    fb.set_pixel(u32::MAX, u32::MAX, rgba(255, 255, 255, 255));
    assert!(fb.pixels().iter().all(|&p| p == 0));
}

#[test]
fn color_rows_unpack_each_pixel() {
    let mut fb = Framebuffer::new(3, 2);
    fb.set_pixel(0, 0, rgba(9, 8, 7, 6));
    fb.set_pixel(2, 1, rgba(255, 0, 128, 255));
    let rows = fb.to_color_rows();
    assert_eq!(rows.len(), 2);
    assert!(rows.iter().all(|row| row.len() == 3));
    assert_eq!(rows[0][0], rgba(9, 8, 7, 6));
    assert_eq!(rows[1][2], rgba(255, 0, 128, 255));
    assert_eq!(rows[1][0], rgba(0, 0, 0, 0));
}
