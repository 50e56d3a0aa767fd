use tactum::compose::{black_pixels, compose_canvas, copy_capture, PixelCapture, Placement};
use tactum::Error;

fn capture(rgba: Vec<u8>, width: u32, height: u32) -> PixelCapture {
    PixelCapture { rgba, width, height }
}

#[test]
fn composing_captures_preserves_black_desktop_gaps() {
    // Displays at desktop x = -1 and x = 1, one point wide at one pixel per
    // point: the canvas spans three pixels and its middle column is a gap.
    let left = capture(vec![255, 0, 0, 255], 1, 1);
    let right = capture(vec![0, 0, 255, 255], 1, 1);
    let placements = vec![
        Placement { x: 0, y: 0, right: 1, bottom: 1 },
        Placement { x: 2, y: 0, right: 3, bottom: 1 },
    ];

    let composed = compose_canvas(3, 1, &vec![left, right], &placements).unwrap();

    assert_eq!(
        composed,
        [
            255, 0, 0, 255, // Left display.
            0, 0, 0, 255, // Gap.
            0, 0, 255, 255, // Right display.
        ]
    );
}

#[test]
fn composing_captures_scales_each_axis_to_its_highest_pixel_density() {
    // A one-pixel-per-point display at x = 0 and a two-pixels-per-point
    // display at x = 1: at the highest density the canvas is four pixels
    // wide and the low-density capture is stretched over two of them.
    let low_density = capture(vec![255, 0, 0, 255], 1, 1);
    let high_density = capture(vec![0, 255, 0, 255, 0, 0, 255, 255], 2, 1);
    let placements = vec![
        Placement { x: 0, y: 0, right: 2, bottom: 1 },
        Placement { x: 2, y: 0, right: 4, bottom: 1 },
    ];

    let composed = compose_canvas(4, 1, &vec![low_density, high_density], &placements).unwrap();

    assert_eq!(
        composed,
        [255, 0, 0, 255, 255, 0, 0, 255, 0, 255, 0, 255, 0, 0, 255, 255,]
    );
}

#[test]
fn composing_captures_rejects_invalid_pixel_data() {
    let invalid = capture(vec![0, 0, 0], 1, 1);
    assert_eq!(invalid.validate(), Err(Error::OperationFailed));
}

#[test]
fn validation_accepts_exact_pixel_data() {
    assert_eq!(capture(vec![0; 24], 3, 2).validate(), Ok(()));
    assert_eq!(capture(vec![], 0, 2).validate(), Err(Error::OperationFailed));
    assert_eq!(capture(vec![], 2, 0).validate(), Err(Error::OperationFailed));
}

#[test]
fn black_canvas_is_opaque_black() {
    assert_eq!(black_pixels(2, 1), Ok(vec![0, 0, 0, 255, 0, 0, 0, 255]));
    assert_eq!(black_pixels(0, 5), Ok(vec![]));
    assert_eq!(black_pixels(u32::MAX, u32::MAX), Err(Error::OperationFailed));
}

#[test]
fn copying_rejects_placements_outside_the_canvas() {
    let source = capture(vec![9, 9, 9, 9], 1, 1);
    let mut canvas = black_pixels(2, 2).unwrap();
    let before = canvas.clone();
    for placement in [
        Placement { x: 1, y: 0, right: 1, bottom: 1 },
        Placement { x: 0, y: 1, right: 1, bottom: 1 },
        Placement { x: 2, y: 0, right: 1, bottom: 1 },
        Placement { x: 0, y: 0, right: 3, bottom: 1 },
        Placement { x: 0, y: 0, right: 1, bottom: 3 },
    ] {
        assert_eq!(
            copy_capture(&mut canvas, 2, 2, placement, &source),
            Err(Error::OperationFailed)
        );
        assert_eq!(canvas, before);
    }
}

#[test]
fn copying_scales_down_by_sampling() {
    // A 4x2 capture painted over a 2x1 rectangle samples columns 0 and 2 of
    // row 0.
    let mut rgba = Vec::new();
    for pixel in 0..8u8 {
        rgba.extend_from_slice(&[pixel, pixel, pixel, 255]);
    }
    let source = capture(rgba, 4, 2);
    let mut canvas = black_pixels(3, 2).unwrap();
    copy_capture(&mut canvas, 3, 2, Placement { x: 1, y: 1, right: 3, bottom: 2 }, &source).unwrap();
    assert_eq!(
        canvas,
        [
            0, 0, 0, 255, 0, 0, 0, 255, 0, 0, 0, 255, // Row 0 untouched.
            0, 0, 0, 255, 0, 0, 0, 255, 2, 2, 2, 255, // Row 1: gap, then samples.
        ]
    );
}

#[test]
fn later_captures_cover_earlier_ones() {
    let first = capture(vec![1, 1, 1, 255, 1, 1, 1, 255], 2, 1);
    let second = capture(vec![2, 2, 2, 255], 1, 1);
    let placements = vec![
        Placement { x: 0, y: 0, right: 2, bottom: 1 },
        Placement { x: 1, y: 0, right: 2, bottom: 1 },
    ];
    let composed = compose_canvas(2, 1, &vec![first, second], &placements).unwrap();
    assert_eq!(composed, [1, 1, 1, 255, 2, 2, 2, 255]);
}

#[test]
fn composing_fails_for_a_placement_that_does_not_fit() {
    let one = capture(vec![1, 1, 1, 255], 1, 1);
    let placements = vec![Placement { x: 0, y: 0, right: 2, bottom: 1 }];
    assert_eq!(compose_canvas(1, 1, &vec![one], &placements), Err(Error::OperationFailed));
}

#[test]
fn composing_opaque_captures_gives_an_opaque_canvas() {
    let a = capture(vec![10, 20, 30, 255, 40, 50, 60, 255], 2, 1);
    let b = capture(vec![70, 80, 90, 255], 1, 1);
    let placements = vec![
        Placement { x: 0, y: 0, right: 3, bottom: 2 },
        Placement { x: 4, y: 1, right: 5, bottom: 3 },
    ];
    let composed = compose_canvas(5, 3, &vec![a, b], &placements).unwrap();
    assert_eq!(composed.len(), 5 * 3 * 4);
    assert!(composed.chunks_exact(4).all(|pixel| pixel[3] == 255));
}
