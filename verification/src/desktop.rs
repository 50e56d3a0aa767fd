use vstd::prelude::*;

use crate::compose::PixelCapture;
use crate::encode::{encode_png, png_rgba8, PngImage};
use crate::error::Error;
use crate::pixels::{red_blue_swapped, swap_red_and_blue};

verus! {

/// A rectangle of the virtual desktop in whole screen pixels: the columns
/// `left..right` and the rows `top..bottom`.
#[derive(Clone, Copy, Debug, PartialEq, Eq, Structural)]
pub struct ScreenRect {
    pub left: i32,
    pub top: i32,
    pub right: i32,
    pub bottom: i32,
}

/// The part of the desktop to capture: its top left corner and its size.
#[derive(Clone, Copy, Debug, PartialEq, Eq, Structural)]
pub struct CaptureArea {
    pub left: i32,
    pub top: i32,
    pub width: i32,
    pub height: i32,
}

pub open spec fn min_i32(a: i32, b: i32) -> i32 {
    if a <= b {
        a
    } else {
        b
    }
}

pub open spec fn max_i32(a: i32, b: i32) -> i32 {
    if a >= b {
        a
    } else {
        b
    }
}

/// The smallest rectangle that holds both rectangles.
pub open spec fn enclosing(a: ScreenRect, b: ScreenRect) -> ScreenRect {
    ScreenRect {
        left: min_i32(a.left, b.left),
        top: min_i32(a.top, b.top),
        right: max_i32(a.right, b.right),
        bottom: max_i32(a.bottom, b.bottom),
    }
}

/// The smallest rectangle that holds the first `count` rectangles
/// (`count >= 1`).
pub open spec fn bounds_of(rects: Seq<ScreenRect>, count: nat) -> ScreenRect
    decreases count,
{
    if count <= 1 {
        rects[0]
    } else {
        enclosing(bounds_of(rects, (count - 1) as nat), rects[count - 1])
    }
}

/// The rectangle `bounds` holds each of the first `count` rectangles, and
/// each of its edges is an edge of one of them: it is the smallest rectangle
/// that holds them all.
pub open spec fn encloses_exactly(bounds: ScreenRect, rects: Seq<ScreenRect>, count: int) -> bool {
    &&& forall|j: int|
        0 <= j < count ==> {
            &&& bounds.left <= (#[trigger] rects[j]).left
            &&& bounds.top <= rects[j].top
            &&& rects[j].right <= bounds.right
            &&& rects[j].bottom <= bounds.bottom
        }
    &&& exists|j: int| 0 <= j < count && bounds.left == (#[trigger] rects[j]).left
    &&& exists|j: int| 0 <= j < count && bounds.top == (#[trigger] rects[j]).top
    &&& exists|j: int| 0 <= j < count && bounds.right == (#[trigger] rects[j]).right
    &&& exists|j: int| 0 <= j < count && bounds.bottom == (#[trigger] rects[j]).bottom
}

/// The bounds of the first `count` rectangles enclose exactly those
/// rectangles.
pub proof fn lemma_bounds_enclose(rects: Seq<ScreenRect>, count: nat)
    requires
        1 <= count <= rects.len(),
    ensures
        encloses_exactly(bounds_of(rects, count), rects, count as int),
    decreases count,
{
    if count == 1 {
        assert(rects[0] == rects[0]);
    } else {
        let last = (count - 1) as nat;
        lemma_bounds_enclose(rects, last);
        let before = bounds_of(rects, last);
        let b = bounds_of(rects, count);
        let r = rects[last as int];
        assert forall|j: int| 0 <= j < count implies {
            &&& b.left <= (#[trigger] rects[j]).left
            &&& b.top <= rects[j].top
            &&& rects[j].right <= b.right
            &&& rects[j].bottom <= b.bottom
        } by {
            if j < last {
                assert(before.left <= rects[j].left);
            }
        }
        if b.left == r.left {
            assert(rects[last as int].left == b.left);
        } else {
            let k = choose|j: int| 0 <= j < last && before.left == (#[trigger] rects[j]).left;
            assert(rects[k].left == b.left);
        }
        if b.top == r.top {
            assert(rects[last as int].top == b.top);
        } else {
            let k = choose|j: int| 0 <= j < last && before.top == (#[trigger] rects[j]).top;
            assert(rects[k].top == b.top);
        }
        if b.right == r.right {
            assert(rects[last as int].right == b.right);
        } else {
            let k = choose|j: int| 0 <= j < last && before.right == (#[trigger] rects[j]).right;
            assert(rects[k].right == b.right);
        }
        if b.bottom == r.bottom {
            assert(rects[last as int].bottom == b.bottom);
        } else {
            let k = choose|j: int| 0 <= j < last && before.bottom == (#[trigger] rects[j]).bottom;
            assert(rects[k].bottom == b.bottom);
        }
    }
}

/// The area that covers every display: Fails for no displays, or when the
/// enclosing rectangle's width or height does not fit an `i32`.
pub fn desktop_area(displays: &Vec<ScreenRect>) -> (result: Result<CaptureArea, Error>)
    ensures
        result is Ok <==> displays@.len() > 0 && {
            let b = bounds_of(displays@, displays@.len());
            &&& i32::MIN <= b.right - b.left <= i32::MAX
            &&& i32::MIN <= b.bottom - b.top <= i32::MAX
        },
        result is Err ==> result == Err::<CaptureArea, Error>(Error::OperationFailed),
        result matches Ok(area) ==> {
            let b = bounds_of(displays@, displays@.len());
            &&& area.left == b.left
            &&& area.top == b.top
            &&& area.width == b.right - b.left
            &&& area.height == b.bottom - b.top
        },
        result matches Ok(area) ==> encloses_exactly(
            ScreenRect {
                left: area.left,
                top: area.top,
                right: (area.left + area.width) as i32,
                bottom: (area.top + area.height) as i32,
            },
            displays@,
            displays@.len() as int,
        ),
{
    if displays.len() == 0 {
        return Err(Error::OperationFailed);
    }
    let mut bounds = displays[0];
    let mut n: usize = 1;
    while n < displays.len()
        invariant
            1 <= n <= displays@.len(),
            bounds == bounds_of(displays@, n as nat),
        decreases displays@.len() - n,
    {
        let next = displays[n];
        bounds = ScreenRect {
            left: if next.left < bounds.left { next.left } else { bounds.left },
            top: if next.top < bounds.top { next.top } else { bounds.top },
            right: if next.right > bounds.right { next.right } else { bounds.right },
            bottom: if next.bottom > bounds.bottom { next.bottom } else { bounds.bottom },
        };
        n = n + 1;
    }
    let width = match bounds.right.checked_sub(bounds.left) {
        Some(width) => width,
        None => {
            return Err(Error::OperationFailed);
        },
    };
    let height = match bounds.bottom.checked_sub(bounds.top) {
        Some(height) => height,
        None => {
            return Err(Error::OperationFailed);
        },
    };
    proof {
        lemma_bounds_enclose(displays@, displays@.len());
        assert(ScreenRect {
            left: bounds.left,
            top: bounds.top,
            right: (bounds.left + width) as i32,
            bottom: (bounds.top + height) as i32,
        } == bounds);
    }
    Ok(CaptureArea { left: bounds.left, top: bounds.top, width, height })
}

/// Turns the BGRA pixels of a screen capture of `width` by `height` pixels
/// into RGBA and encodes them as a PNG image.
pub fn encode_screen_capture(bgra: Vec<u8>, width: i32, height: i32) -> (result: Result<
    PngImage,
    Error,
>)
    requires
        width > 0,
        height > 0,
        bgra@.len() == width * height * 4,
    ensures
        result is Ok,
        result matches Ok(image) ==> {
            &&& image.width == width
            &&& image.height == height
            &&& png_rgba8(red_blue_swapped(bgra@), width as u32, height as u32) == Some(image.png@)
        },
{
    let mut rgba = bgra;
    swap_red_and_blue(rgba.as_mut_slice());
    encode_png(PixelCapture { rgba, width: width as u32, height: height as u32 })
}

/// The size of a monitor's rectangle, when it has positive width and height.
pub fn monitor_extent(bounds: ScreenRect) -> (size: Option<(i32, i32)>)
    requires
        i32::MIN <= bounds.right - bounds.left <= i32::MAX,
        i32::MIN <= bounds.bottom - bounds.top <= i32::MAX,
    ensures
        size is Some <==> bounds.right - bounds.left > 0 && bounds.bottom - bounds.top > 0,
        size matches Some((width, height)) ==> width == bounds.right - bounds.left && height
            == bounds.bottom - bounds.top,
{
    let width = bounds.right - bounds.left;
    let height = bounds.bottom - bounds.top;
    if width <= 0 || height <= 0 {
        None
    } else {
        Some((width, height))
    }
}

/// The primary display found by a display enumeration: fails when the
/// enumeration or the handling of one display failed, or when no display
/// was reported as primary.
pub fn primary_display(enumerated: bool, display_failed: bool, primary: Option<u64>) -> (result:
    Result<u64, Error>)
    ensures
        result is Ok <==> enumerated && !display_failed && primary is Some,
        result is Err ==> result == Err::<u64, Error>(Error::OperationFailed),
        result matches Ok(id) ==> primary == Some(id),
{
    if !enumerated || display_failed {
        return Err(Error::OperationFailed);
    }
    match primary {
        Some(id) => Ok(id),
        None => Err(Error::OperationFailed),
    }
}

/// The macOS display identifier (a `u32`) for a display id, when it fits.
pub fn display_id(id: u64) -> (result: Result<u32, Error>)
    ensures
        result is Ok <==> id <= u32::MAX,
        result is Err ==> result == Err::<u32, Error>(Error::OperationFailed),
        result matches Ok(display) ==> display == id,
{
    if id > u32::MAX as u64 {
        Err(Error::OperationFailed)
    } else {
        Ok(id as u32)
    }
}

/// The position of the first display with the given id, if any.
pub fn find_display(ids: &Vec<u64>, id: u64) -> (position: Option<usize>)
    ensures
        position is None <==> !ids@.contains(id),
        position matches Some(i) ==> i < ids@.len() && ids@[i as int] == id && forall|j: int|
            0 <= j < i ==> ids@[j] != id,
{
    let mut i: usize = 0;
    while i < ids.len()
        invariant
            i <= ids@.len(),
            forall|j: int| 0 <= j < i ==> ids@[j] != id,
        decreases ids@.len() - i,
    {
        if ids[i] == id {
            return Some(i);
        }
        i = i + 1;
    }
    None
}

} // verus!
