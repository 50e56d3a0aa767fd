use vstd::prelude::*;
use vstd::arithmetic::div_mod::lemma_fundamental_div_mod;

use crate::error::Error;

verus! {

/// The opaque alpha value.
pub const OPAQUE: u8 = 255;

/// Undoes alpha premultiplication of one colour component, rounding to the
/// nearest value and clamping at the largest component value.
pub open spec fn unpremultiplied(component: u8, alpha: u8) -> u8
    recommends
        alpha > 0,
{
    let scaled = (component as int * 255 + alpha as int / 2) / alpha as int;
    if scaled > 255 {
        255
    } else {
        scaled as u8
    }
}

/// The opaque RGBA pixel that stands for one premultiplied BGRA pixel.
pub open spec fn opaque_pixel(blue: u8, green: u8, red: u8, alpha: u8) -> Seq<u8> {
    if alpha == 255 {
        seq![red, green, blue, 255u8]
    } else if alpha == 0 {
        seq![0u8, 0u8, 0u8, 255u8]
    } else {
        seq![
            unpremultiplied(red, alpha),
            unpremultiplied(green, alpha),
            unpremultiplied(blue, alpha),
            255u8,
        ]
    }
}

/// The opaque RGBA pixel standing for the `index`-th BGRA pixel of `bgra`.
pub open spec fn opaque_pixel_at(bgra: Seq<u8>, index: int) -> Seq<u8> {
    opaque_pixel(bgra[4 * index], bgra[4 * index + 1], bgra[4 * index + 2], bgra[4 * index + 3])
}

/// Converts every whole premultiplied BGRA pixel of `bgra` into an opaque RGBA
/// pixel; bytes after the last whole pixel are kept.
pub open spec fn opaque_rgba(bgra: Seq<u8>) -> Seq<u8> {
    Seq::new(
        bgra.len(),
        |i: int|
            if i < 4 * (bgra.len() / 4) {
                opaque_pixel_at(bgra, i / 4)[i % 4]
            } else {
                bgra[i]
            },
    )
}

fn unpremultiply(component: u8, alpha: u8) -> (value: u8)
    requires
        alpha > 0,
    ensures
        value == unpremultiplied(component, alpha),
{
    let scaled: u32 = (component as u32 * 255 + alpha as u32 / 2) / alpha as u32;
    if scaled > 255 {
        255
    } else {
        scaled as u8
    }
}

proof fn lemma_pixel_position(i: int, k: int)
    requires
        0 <= i,
        0 <= k < 4,
    ensures
        (4 * i + k) / 4 == i,
        (4 * i + k) % 4 == k,
{
    assert((4 * i + k) / 4 == i && (4 * i + k) % 4 == k) by (nonlinear_arith)
        requires
            0 <= i,
            0 <= k < 4,
    ;
}

/// Converts premultiplied BGRA pixels, in place, into opaque RGBA pixels.
///
/// Opaque pixels keep their colour, fully transparent pixels become opaque
/// black, and translucent pixels are unpremultiplied and made opaque.
pub fn premultiplied_bgra_to_opaque_rgba(rgba: &mut [u8])
    ensures
        final(rgba)@ == opaque_rgba(old(rgba)@),
{
    let ghost initial = rgba@;
    let len: usize = rgba.len();
    let pixels: usize = len / 4;
    let mut i: usize = 0;
    while i < pixels
        invariant
            initial == old(rgba)@,
            rgba@.len() == initial.len(),
            len == initial.len(),
            pixels == len / 4,
            i <= pixels,
            forall|j: int| 0 <= j < 4 * i ==> rgba@[j] == #[trigger] opaque_rgba(initial)[j],
            forall|j: int| 4 * i <= j < rgba@.len() ==> rgba@[j] == initial[j],
        decreases pixels - i,
    {
        assert(4 * i + 4 <= rgba@.len()) by (nonlinear_arith)
            requires
                i < pixels,
                pixels == len / 4,
                len == rgba@.len(),
        ;
        let base: usize = 4 * i;
        let blue = rgba[base];
        let green = rgba[base + 1];
        let red = rgba[base + 2];
        let alpha = rgba[base + 3];
        let (r, g, b): (u8, u8, u8) = if alpha == OPAQUE {
            (red, green, blue)
        } else if alpha == 0 {
            (0, 0, 0)
        } else {
            (unpremultiply(red, alpha), unpremultiply(green, alpha), unpremultiply(blue, alpha))
        };
        rgba[base] = r;
        rgba[base + 1] = g;
        rgba[base + 2] = b;
        rgba[base + 3] = OPAQUE;
        proof {
            assert forall|k: int| 0 <= k < 4 implies rgba@[4 * i + k] == #[trigger] opaque_rgba(
                initial,
            )[4 * i + k] by {
                lemma_pixel_position(i as int, k);
            }
            assert forall|j: int| 0 <= j < 4 * (i + 1) implies rgba@[j] == #[trigger] opaque_rgba(
                initial,
            )[j] by {
                if j >= 4 * i {
                    let k = j - 4 * i;
                    assert(rgba@[4 * i + k] == opaque_rgba(initial)[4 * i + k]);
                }
            }
        }
        i = i + 1;
    }
    proof {
        assert(rgba@ =~= opaque_rgba(initial));
    }
}

/// Every whole pixel produced by the conversion is opaque.
pub proof fn lemma_converted_pixels_are_opaque(bgra: Seq<u8>, index: int)
    requires
        0 <= index < bgra.len() / 4,
    ensures
        opaque_rgba(bgra)[4 * index + 3] == OPAQUE,
{
    lemma_pixel_position(index, 3);
    assert(4 * index + 3 < 4 * (bgra.len() / 4)) by (nonlinear_arith)
        requires
            0 <= index < bgra.len() / 4,
    ;
}

/// Swaps the first and third byte of every whole four-byte pixel; bytes after
/// the last whole pixel are kept.
pub open spec fn red_blue_swapped(pixels: Seq<u8>) -> Seq<u8> {
    Seq::new(
        pixels.len(),
        |i: int|
            if i < 4 * (pixels.len() / 4) && i % 4 == 0 {
                pixels[i + 2]
            } else if i < 4 * (pixels.len() / 4) && i % 4 == 2 {
                pixels[i - 2]
            } else {
                pixels[i]
            },
    )
}

/// Turns BGRA pixels into RGBA pixels, in place, by swapping the blue and red
/// bytes of every pixel.
pub fn swap_red_and_blue(pixels: &mut [u8])
    ensures
        final(pixels)@ == red_blue_swapped(old(pixels)@),
{
    let ghost initial = pixels@;
    let len: usize = pixels.len();
    let count: usize = len / 4;
    let mut i: usize = 0;
    while i < count
        invariant
            initial == old(pixels)@,
            pixels@.len() == initial.len(),
            len == initial.len(),
            count == len / 4,
            i <= count,
            forall|j: int| 0 <= j < 4 * i ==> pixels@[j] == #[trigger] red_blue_swapped(initial)[j],
            forall|j: int| 4 * i <= j < pixels@.len() ==> pixels@[j] == initial[j],
        decreases count - i,
    {
        assert(4 * i + 4 <= pixels@.len()) by (nonlinear_arith)
            requires
                i < count,
                count == len / 4,
                len == pixels@.len(),
        ;
        let base: usize = 4 * i;
        let first = pixels[base];
        pixels[base] = pixels[base + 2];
        pixels[base + 2] = first;
        proof {
            assert forall|k: int| 0 <= k < 4 implies pixels@[4 * i + k] == #[trigger] red_blue_swapped(
                initial,
            )[4 * i + k] by {
                lemma_pixel_position(i as int, k);
                lemma_pixel_position(i as int, 0);
                lemma_pixel_position(i as int, 2);
            }
            assert forall|j: int| 0 <= j < 4 * (i + 1) implies pixels@[j]
                == #[trigger] red_blue_swapped(initial)[j] by {
                if j >= 4 * i {
                    let k = j - 4 * i;
                    assert(pixels@[4 * i + k] == red_blue_swapped(initial)[4 * i + k]);
                }
            }
        }
        i = i + 1;
    }
    proof {
        assert(pixels@ =~= red_blue_swapped(initial));
    }
}

/// The byte length of one row and of the whole image of a `width` by
/// `height` RGBA bitmap, when both fit in memory and the bitmap has pixels.
pub fn rgba_bitmap_layout(width: usize, height: usize) -> (result: Result<(usize, usize), Error>)
    ensures
        result is Ok <==> (width > 0 && height > 0 && width * 4 * height <= usize::MAX),
        result is Err ==> result == Err::<(usize, usize), Error>(Error::OperationFailed),
        result matches Ok((row, total)) ==> row == width * 4 && total == width * 4 * height,
{
    if width == 0 || height == 0 {
        return Err(Error::OperationFailed);
    }
    let row_length = match width.checked_mul(4) {
        Some(row) => row,
        None => {
            proof {
                assert(width * 4 * height > usize::MAX) by (nonlinear_arith)
                    requires
                        width * 4 > usize::MAX,
                        height > 0,
                ;
            }
            return Err(Error::OperationFailed);
        },
    };
    match row_length.checked_mul(height) {
        Some(total) => Ok((row_length, total)),
        None => Err(Error::OperationFailed),
    }
}

/// The pixel size of a captured image as `u32` values, when both fit and the
/// image has pixels.
pub fn capture_dimensions(width: usize, height: usize) -> (result: Result<(u32, u32), Error>)
    ensures
        result is Ok <==> (0 < width <= u32::MAX && 0 < height <= u32::MAX),
        result is Err ==> result == Err::<(u32, u32), Error>(Error::OperationFailed),
        result matches Ok((w, h)) ==> w == width && h == height,
{
    if width > u32::MAX as usize || height > u32::MAX as usize {
        return Err(Error::OperationFailed);
    }
    let w = width as u32;
    let h = height as u32;
    if w == 0 || h == 0 {
        return Err(Error::OperationFailed);
    }
    Ok((w, h))
}

/// The byte length of a 32-bit bitmap of a screen rectangle of `width` by
/// `height` pixels, when the rectangle has pixels and the length fits both
/// in memory and in a `u32` bitmap header field.
pub fn screen_bitmap_len(width: i32, height: i32) -> (result: Result<usize, Error>)
    ensures
        result is Ok <==> (width > 0 && height > 0 && width * height * 4 <= u32::MAX),
        result is Err ==> result == Err::<usize, Error>(Error::OperationFailed),
        result matches Ok(len) ==> len == width * height * 4,
{
    if width <= 0 || height <= 0 {
        return Err(Error::OperationFailed);
    }
    let pixels = (width as usize).checked_mul(height as usize);
    let byte_len = match pixels {
        Some(pixels) => pixels.checked_mul(4),
        None => None,
    };
    match byte_len {
        Some(len) => {
            if len > u32::MAX as usize {
                Err(Error::OperationFailed)
            } else {
                Ok(len)
            }
        },
        None => {
            proof {
                assert(width * height * 4 > u32::MAX) by (nonlinear_arith)
                    requires
                        width * height > usize::MAX || width * height * 4 > usize::MAX,
                        usize::MAX >= u32::MAX,
                        width > 0,
                        height > 0,
                ;
            }
            Err(Error::OperationFailed)
        },
    }
}

/// Unpremultiplying rounds to the nearest component value: for a component
/// no larger than its alpha (every premultiplied component), the result `v`
/// satisfies `|component * 255 - v * alpha| <= alpha / 2`; a component at or
/// above its alpha gives full intensity.
pub proof fn lemma_unpremultiplied_rounds_to_nearest(component: u8, alpha: u8)
    requires
        alpha > 0,
    ensures
        component <= alpha ==> {
            let v = unpremultiplied(component, alpha) as int;
            &&& -(alpha as int) <= 2 * (component as int * 255 - v * alpha as int)
            &&& 2 * (component as int * 255 - v * alpha as int) <= alpha as int
        },
        component >= alpha ==> unpremultiplied(component, alpha) == 255,
        component == 0 ==> unpremultiplied(component, alpha) == 0,
{
    let c = component as int;
    let a = alpha as int;
    let n = c * 255 + a / 2;
    lemma_fundamental_div_mod(n, a);
    let q = n / a;
    let r = n % a;
    assert(n == a * q + r && 0 <= r < a);
    if c <= a {
        assert(q <= 255) by (nonlinear_arith)
            requires
                n == a * q + r,
                0 <= r,
                0 < a,
                c <= a,
                n == c * 255 + a / 2,
        ;
        assert(unpremultiplied(component, alpha) as int == q);
        assert(-a <= 2 * (c * 255 - q * a) <= a) by (nonlinear_arith)
            requires
                n == a * q + r,
                0 <= r < a,
                n == c * 255 + a / 2,
                0 < a,
        ;
    }
    if c >= a {
        assert(q >= 255) by (nonlinear_arith)
            requires
                n == a * q + r,
                r < a,
                0 < a,
                c >= a,
                n == c * 255 + a / 2,
                a / 2 >= 0,
        ;
    }
    if c == 0 {
        assert(q == 0) by (nonlinear_arith)
            requires
                n == a * q + r,
                0 <= r < a,
                0 < a,
                n == a / 2,
                a / 2 < a,
        ;
    }
}

/// What the conversion does to each whole pixel `[blue, green, red, alpha]`:
/// an opaque pixel keeps its colour in RGBA order, a fully transparent pixel
/// becomes opaque black, a translucent pixel has each colour component
/// unpremultiplied and becomes opaque; bytes after the last whole pixel are
/// kept.
pub proof fn lemma_opaque_rgba_pixels(bgra: Seq<u8>, index: int)
    requires
        0 <= index < bgra.len() / 4,
    ensures
        ({
            let out = opaque_rgba(bgra);
            let blue = bgra[4 * index];
            let green = bgra[4 * index + 1];
            let red = bgra[4 * index + 2];
            let alpha = bgra[4 * index + 3];
            &&& out.len() == bgra.len()
            &&& out[4 * index + 3] == 255
            &&& alpha == 255 ==> out[4 * index] == red && out[4 * index + 1] == green && out[4
                * index + 2] == blue
            &&& alpha == 0 ==> out[4 * index] == 0 && out[4 * index + 1] == 0 && out[4 * index
                + 2] == 0
            &&& 0 < alpha < 255 ==> out[4 * index] == unpremultiplied(red, alpha) && out[4 * index
                + 1] == unpremultiplied(green, alpha) && out[4 * index + 2] == unpremultiplied(
                blue,
                alpha,
            )
        }),
        forall|i: int|
            4 * (bgra.len() / 4) <= i < bgra.len() ==> #[trigger] opaque_rgba(bgra)[i] == bgra[i],
{
    assert(4 * index + 3 < 4 * (bgra.len() / 4)) by (nonlinear_arith)
        requires
            0 <= index < bgra.len() / 4,
    ;
    lemma_pixel_position(index, 0);
    lemma_pixel_position(index, 1);
    lemma_pixel_position(index, 2);
    lemma_pixel_position(index, 3);
}

/// Swapping exchanges the first and third byte of every whole pixel and
/// keeps every other byte.
pub proof fn lemma_red_blue_swapped_pixels(pixels: Seq<u8>, index: int)
    requires
        0 <= index < pixels.len() / 4,
    ensures
        red_blue_swapped(pixels).len() == pixels.len(),
        red_blue_swapped(pixels)[4 * index] == pixels[4 * index + 2],
        red_blue_swapped(pixels)[4 * index + 1] == pixels[4 * index + 1],
        red_blue_swapped(pixels)[4 * index + 2] == pixels[4 * index],
        red_blue_swapped(pixels)[4 * index + 3] == pixels[4 * index + 3],
        forall|i: int|
            4 * (pixels.len() / 4) <= i < pixels.len() ==> #[trigger] red_blue_swapped(pixels)[i]
                == pixels[i],
{
    assert(4 * index + 3 < 4 * (pixels.len() / 4)) by (nonlinear_arith)
        requires
            0 <= index < pixels.len() / 4,
    ;
    lemma_pixel_position(index, 0);
    lemma_pixel_position(index, 1);
    lemma_pixel_position(index, 2);
    lemma_pixel_position(index, 3);
}

} // verus!
