use tactum::compose::PixelCapture;
use tactum::desktop::{
    desktop_area, display_id, encode_screen_capture, find_display, monitor_extent, primary_display,
    CaptureArea,
    ScreenRect,
};
use tactum::encode::encode_png;
use tactum::Error;

#[test]
fn encoding_writes_a_png_of_the_same_size() {
    let rgba = vec![255, 0, 0, 255, 0, 0, 255, 255];
    let image = encode_png(PixelCapture { rgba: rgba.clone(), width: 2, height: 1 }).unwrap();
    assert_eq!(image.width, 2);
    assert_eq!(image.height, 1);
    assert_eq!(&image.png[..8], b"\x89PNG\r\n\x1a\n");
    assert_ne!(image.png, rgba);
}

#[test]
fn encoding_an_empty_image_fails() {
    assert!(matches!(
        encode_png(PixelCapture { rgba: vec![], width: 0, height: 3 }),
        Err(Error::OperationFailed)
    ));
}

#[test]
fn screen_captures_swap_blue_and_red_before_encoding() {
    let bgra = vec![1, 2, 3, 255];
    let swapped = encode_screen_capture(bgra, 1, 1).unwrap();
    let direct = encode_png(PixelCapture { rgba: vec![3, 2, 1, 255], width: 1, height: 1 }).unwrap();
    assert_eq!(swapped.png, direct.png);
}

#[test]
fn desktop_area_encloses_all_displays() {
    let displays = vec![
        ScreenRect { left: 0, top: 0, right: 1920, bottom: 1080 },
        ScreenRect { left: -1280, top: 100, right: 0, bottom: 1124 },
    ];
    assert_eq!(
        desktop_area(&displays),
        Ok(CaptureArea { left: -1280, top: 0, width: 3200, height: 1124 })
    );
    assert_eq!(desktop_area(&vec![]), Err(Error::OperationFailed));
    let huge = vec![ScreenRect { left: i32::MIN, top: 0, right: i32::MAX, bottom: 1 }];
    assert_eq!(desktop_area(&huge), Err(Error::OperationFailed));
}

#[test]
fn display_ids() {
    assert_eq!(display_id(7), Ok(7));
    assert_eq!(display_id(u64::from(u32::MAX) + 1), Err(Error::OperationFailed));
    assert_eq!(find_display(&vec![4, 9, 9], 9), Some(1));
    assert_eq!(find_display(&vec![4, 9], 5), None);
}

#[test]
fn monitors_need_a_positive_extent() {
    assert_eq!(monitor_extent(ScreenRect { left: -1920, top: 0, right: 0, bottom: 1080 }), Some((1920, 1080)));
    assert_eq!(monitor_extent(ScreenRect { left: 5, top: 0, right: 5, bottom: 10 }), None);
    assert_eq!(monitor_extent(ScreenRect { left: 0, top: 10, right: 5, bottom: 0 }), None);
}

#[test]
fn enumeration_needs_a_primary_display() {
    assert_eq!(primary_display(true, false, Some(3)), Ok(3));
    assert_eq!(primary_display(false, false, Some(3)), Err(Error::OperationFailed));
    assert_eq!(primary_display(true, true, Some(3)), Err(Error::OperationFailed));
    assert_eq!(primary_display(true, false, None), Err(Error::OperationFailed));
}
