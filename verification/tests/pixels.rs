use tactum::pixels::{
    capture_dimensions, premultiplied_bgra_to_opaque_rgba, rgba_bitmap_layout, screen_bitmap_len,
    swap_red_and_blue,
};
use tactum::Error;

#[test]
fn normalizes_premultiplied_bgra_to_opaque_rgba() {
    let mut pixels = [
        201, 83, 17, 255, // Opaque BGRA.
        16, 32, 64, 128, // Premultiplied BGRA.
        0, 0, 0, 0, // Fully transparent.
    ];

    premultiplied_bgra_to_opaque_rgba(&mut pixels);

    assert_eq!(
        pixels,
        [
            17, 83, 201, 255, // Opaque RGBA.
            128, 64, 32, 255, // Unpremultiplied and made opaque.
            0, 0, 0, 255, // Transparent source becomes opaque black.
        ]
    );
}

#[test]
fn unpremultiplying_clamps_and_keeps_trailing_bytes() {
    // A component larger than its alpha clamps at 255; the two bytes after
    // the last whole pixel stay as they are.
    let mut pixels = [200, 10, 1, 100, 7, 9];
    premultiplied_bgra_to_opaque_rgba(&mut pixels);
    // red: (1 * 255 + 50) / 100 = 3; green: (10 * 255 + 50) / 100 = 26;
    // blue: (200 * 255 + 50) / 100 = 510, clamped.
    assert_eq!(pixels, [3, 26, 255, 255, 7, 9]);
}

#[test]
fn every_converted_pixel_is_opaque() {
    let mut pixels: Vec<u8> = (0..=255u8).collect();
    premultiplied_bgra_to_opaque_rgba(&mut pixels);
    for pixel in pixels.chunks_exact(4) {
        assert_eq!(pixel[3], 255);
    }
}

#[test]
fn swapping_turns_bgra_into_rgba() {
    let mut pixels = [1, 2, 3, 4, 5, 6, 7, 8, 9];
    swap_red_and_blue(&mut pixels);
    assert_eq!(pixels, [3, 2, 1, 4, 7, 6, 5, 8, 9]);
}

#[test]
fn bitmap_layout_checks_size() {
    assert_eq!(rgba_bitmap_layout(3, 2), Ok((12, 24)));
    assert_eq!(rgba_bitmap_layout(0, 2), Err(Error::OperationFailed));
    assert_eq!(rgba_bitmap_layout(2, 0), Err(Error::OperationFailed));
    assert_eq!(rgba_bitmap_layout(usize::MAX, 1), Err(Error::OperationFailed));
    assert_eq!(rgba_bitmap_layout(usize::MAX / 8, 3), Err(Error::OperationFailed));
}

#[test]
fn capture_dimensions_must_fit_u32() {
    assert_eq!(capture_dimensions(1920, 1080), Ok((1920, 1080)));
    assert_eq!(capture_dimensions(0, 1080), Err(Error::OperationFailed));
    assert_eq!(capture_dimensions(1 << 32, 1), Err(Error::OperationFailed));
}

#[test]
fn screen_bitmap_len_fits_header() {
    assert_eq!(screen_bitmap_len(1920, 1080), Ok(1920 * 1080 * 4));
    assert_eq!(screen_bitmap_len(0, 10), Err(Error::OperationFailed));
    assert_eq!(screen_bitmap_len(10, -1), Err(Error::OperationFailed));
    assert_eq!(screen_bitmap_len(65536, 16384), Err(Error::OperationFailed));
    assert_eq!(screen_bitmap_len(65535, 16384), Ok(65535 * 16384 * 4));
}
