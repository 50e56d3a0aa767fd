use vstd::prelude::*;
use vstd::arithmetic::div_mod::{
    lemma_fundamental_div_mod, lemma_fundamental_div_mod_converse, lemma_multiply_divide_lt,
};
use vstd::arithmetic::mul::lemma_mul_strict_inequality;

use crate::error::Error;

verus! {

/// The RGBA pixels of one captured display, row by row from the top left.
pub struct PixelCapture {
    pub rgba: Vec<u8>,
    pub width: u32,
    pub height: u32,
}

/// Where a capture lands on the composed canvas, in canvas pixels: the
/// columns `x..right` and the rows `y..bottom`.
#[derive(Clone, Copy, Debug, PartialEq, Eq, Structural)]
pub struct Placement {
    pub x: u32,
    pub y: u32,
    pub right: u32,
    pub bottom: u32,
}

impl PixelCapture {
    /// A capture is well formed when it has pixels and exactly four bytes
    /// for each of them.
    pub open spec fn well_formed(&self) -> bool {
        &&& self.width > 0
        &&& self.height > 0
        &&& self.rgba@.len() == self.width as int * self.height as int * 4
    }

    /// Checks that the capture has pixels and exactly four bytes for each.
    pub fn validate(&self) -> (result: Result<(), Error>)
        ensures
            result is Ok <==> self.well_formed(),
            result is Err ==> result == Err::<(), Error>(Error::OperationFailed),
    {
        let len: usize = self.rgba.len();
        let pixels = (self.width as usize).checked_mul(self.height as usize);
        let expected = match pixels {
            Some(pixels) => pixels.checked_mul(4),
            None => None,
        };
        match expected {
            None => {
                proof {
                    let w = self.width as int;
                    let h = self.height as int;
                    assert(w * h * 4 > usize::MAX) by (nonlinear_arith)
                        requires
                            w * h > usize::MAX || w * h * 4 > usize::MAX,
                            w >= 0,
                            h >= 0,
                    ;
                    assert(len <= usize::MAX);
                }
                Err(Error::OperationFailed)
            },
            Some(expected) => {
                if self.width == 0 || self.height == 0 || self.rgba.len() != expected {
                    Err(Error::OperationFailed)
                } else {
                    Ok(())
                }
            },
        }
    }
}

impl Placement {
    /// The placement covers at least one pixel and lies within a canvas of
    /// the given size.
    pub open spec fn fits(self, width: u32, height: u32) -> bool {
        &&& self.x < self.right
        &&& self.y < self.bottom
        &&& self.right <= width
        &&& self.bottom <= height
    }

    pub open spec fn target_width(self) -> int {
        self.right - self.x
    }

    pub open spec fn target_height(self) -> int {
        self.bottom - self.y
    }
}

/// The number of bytes of a canvas of `width` by `height` RGBA pixels.
pub open spec fn canvas_len(width: u32, height: u32) -> int {
    width as int * height as int * 4
}

/// The source byte offset of the pixel that nearest-neighbour scaling maps to
/// the target pixel `(tx, ty)` when a capture of `cw` by `ch` pixels is
/// stretched over `tw` by `th` pixels.
pub open spec fn sampled_offset(cw: int, ch: int, tw: int, th: int, tx: int, ty: int) -> int {
    ((ty * ch / th) * cw + tx * cw / tw) * 4
}

/// `canvas` with the first `count` pixels of the placement's rectangle (in
/// row-major order) replaced by the scaled capture.
pub open spec fn painted_prefix(
    canvas: Seq<u8>,
    width: int,
    placement: Placement,
    capture: Seq<u8>,
    cw: int,
    ch: int,
    count: int,
) -> Seq<u8> {
    let tw = placement.target_width();
    let th = placement.target_height();
    Seq::new(
        canvas.len(),
        |i: int|
            {
                let tx = (i / 4) % width - placement.x;
                let ty = (i / 4) / width - placement.y;
                if 0 <= tx < tw && 0 <= ty < th && ty * tw + tx < count {
                    capture[sampled_offset(cw, ch, tw, th, tx, ty) + i % 4]
                } else {
                    canvas[i]
                }
            },
    )
}

/// `canvas` (`width` pixels per row) with the placement's rectangle replaced
/// by the capture, scaled to the rectangle by nearest-neighbour sampling.
pub open spec fn painted(
    canvas: Seq<u8>,
    width: int,
    placement: Placement,
    capture: Seq<u8>,
    cw: int,
    ch: int,
) -> Seq<u8> {
    painted_prefix(
        canvas,
        width,
        placement,
        capture,
        cw,
        ch,
        placement.target_width() * placement.target_height(),
    )
}

/// Locates byte `4 * (py * width + px) + c` of a canvas.
proof fn lemma_locate(width: int, px: int, py: int, c: int)
    requires
        0 <= px < width,
        0 <= py,
        0 <= c < 4,
    ensures
        (4 * (py * width + px) + c) / 4 == py * width + px,
        (4 * (py * width + px) + c) % 4 == c,
        (py * width + px) % width == px,
        (py * width + px) / width == py,
{
    lemma_fundamental_div_mod_converse(4 * (py * width + px) + c, 4, py * width + px, c);
    lemma_fundamental_div_mod_converse(py * width + px, width, py, px);
}

/// Every byte index splits into its pixel's column, row and channel.
proof fn lemma_split(i: int, width: int)
    requires
        0 <= i,
        0 < width,
    ensures
        0 <= (i / 4) % width < width,
        0 <= (i / 4) / width,
        0 <= i % 4 < 4,
        i == 4 * (((i / 4) / width) * width + (i / 4) % width) + i % 4,
{
    lemma_fundamental_div_mod(i, 4);
    lemma_fundamental_div_mod(i / 4, width);
    assert(width * ((i / 4) / width) == ((i / 4) / width) * width) by (nonlinear_arith);
}

/// Byte `4 * (py * width + px) + 3` lies inside a canvas of `height` rows.
proof fn lemma_pixel_in_canvas(width: int, height: int, px: int, py: int)
    requires
        0 <= px < width,
        0 <= py < height,
    ensures
        4 * (py * width + px) + 3 < width * height * 4,
{
    assert(py * width + px < width * height) by (nonlinear_arith)
        requires
            0 <= px < width,
            0 <= py < height,
    ;
}

/// The sampled source pixel lies inside the capture.
proof fn lemma_sample_in_capture(cw: int, ch: int, tw: int, th: int, tx: int, ty: int)
    requires
        0 < cw,
        0 < ch,
        0 <= tx < tw,
        0 <= ty < th,
    ensures
        0 <= tx * cw / tw < cw,
        0 <= ty * ch / th < ch,
        0 <= sampled_offset(cw, ch, tw, th, tx, ty),
        sampled_offset(cw, ch, tw, th, tx, ty) + 3 < cw * ch * 4,
{
    lemma_mul_strict_inequality(tx, tw, cw);
    assert(tx * cw < tw * cw);
    lemma_multiply_divide_lt(tx * cw, tw, cw);
    lemma_mul_strict_inequality(ty, th, ch);
    lemma_multiply_divide_lt(ty * ch, th, ch);
    assert(0 <= tx * cw) by (nonlinear_arith)
        requires
            0 <= tx,
            0 < cw,
    ;
    assert(0 <= ty * ch) by (nonlinear_arith)
        requires
            0 <= ty,
            0 < ch,
    ;
    let sx = tx * cw / tw;
    let sy = ty * ch / th;
    assert(0 <= sx && 0 <= sy);
    lemma_pixel_in_canvas(cw, ch, sx, sy);
    assert(0 <= sy * cw + sx) by (nonlinear_arith)
        requires
            0 <= sx,
            0 <= sy,
            0 < cw,
    ;
}

/// Row-major positions inside a rectangle `tw` pixels wide are unique.
proof fn lemma_row_major_unique(tw: int, tx: int, ty: int, tx2: int, ty2: int)
    requires
        0 <= tx < tw,
        0 <= tx2 < tw,
        0 <= ty,
        0 <= ty2,
        ty * tw + tx == ty2 * tw + tx2,
    ensures
        tx == tx2,
        ty == ty2,
{
    lemma_fundamental_div_mod_converse(ty * tw + tx, tw, ty, tx);
    lemma_fundamental_div_mod_converse(ty2 * tw + tx2, tw, ty2, tx2);
}

/// Writing the four bytes of the next pixel of the rectangle extends the
/// painted prefix by one pixel.
proof fn lemma_paint_step(
    initial: Seq<u8>,
    width: int,
    height: int,
    placement: Placement,
    capture: Seq<u8>,
    cw: int,
    ch: int,
    tx: int,
    ty: int,
    before: Seq<u8>,
    after: Seq<u8>,
)
    requires
        0 < width,
        initial.len() == width * height * 4,
        placement.x < placement.right <= width,
        placement.y < placement.bottom <= height,
        0 <= tx < placement.target_width(),
        0 <= ty < placement.target_height(),
        before == painted_prefix(
            initial,
            width,
            placement,
            capture,
            cw,
            ch,
            ty * placement.target_width() + tx,
        ),
        after.len() == before.len(),
        forall|k: int|
            0 <= k < 4 ==> #[trigger] after[4 * ((placement.y + ty) * width + placement.x + tx) + k]
                == capture[sampled_offset(
                cw,
                ch,
                placement.target_width(),
                placement.target_height(),
                tx,
                ty,
            ) + k],
        forall|i: int|
            0 <= i < after.len() && (i < 4 * ((placement.y + ty) * width + placement.x + tx) || 4 * (
            (placement.y + ty) * width + placement.x + tx) + 4 <= i) ==> after[i] == before[i],
    ensures
        after == painted_prefix(
            initial,
            width,
            placement,
            capture,
            cw,
            ch,
            ty * placement.target_width() + tx + 1,
        ),
{
    let tw = placement.target_width();
    let th = placement.target_height();
    let px = placement.x + tx;
    let py = placement.y + ty;
    let target = 4 * (py * width + px);
    let next = painted_prefix(initial, width, placement, capture, cw, ch, ty * tw + tx + 1);
    assert forall|i: int| 0 <= i < after.len() implies after[i] == next[i] by {
        lemma_split(i, width);
        let qx = (i / 4) % width;
        let qy = (i / 4) / width;
        if target <= i < target + 4 {
            let k = i - target;
            lemma_locate(width, px, py, k);
            assert(after[target + k] == capture[sampled_offset(cw, ch, tw, th, tx, ty) + k]);
        } else {
            let tx2 = qx - placement.x;
            let ty2 = qy - placement.y;
            if 0 <= tx2 < tw && 0 <= ty2 < th && ty2 * tw + tx2 == ty * tw + tx {
                lemma_row_major_unique(tw, tx, ty, tx2, ty2);
                assert(i == 4 * (py * width + px) + i % 4);
            }
        }
    }
    assert(after =~= next);
}

/// Paints `capture` over the `placement` rectangle of `canvas`, a canvas of
/// `width` by `height` RGBA pixels, scaling by nearest-neighbour sampling.
///
/// Fails, leaving the canvas untouched, when the placement is empty or does
/// not fit the canvas.
pub fn copy_capture(
    canvas: &mut Vec<u8>,
    width: u32,
    height: u32,
    placement: Placement,
    capture: &PixelCapture,
) -> (result: Result<(), Error>)
    requires
        old(canvas)@.len() == canvas_len(width, height),
        capture.well_formed(),
    ensures
        result is Ok <==> placement.fits(width, height),
        result is Err ==> result == Err::<(), Error>(Error::OperationFailed),
        result is Err ==> final(canvas)@ == old(canvas)@,
        result is Ok ==> final(canvas)@ == painted(
            old(canvas)@,
            width as int,
            placement,
            capture.rgba@,
            capture.width as int,
            capture.height as int,
        ),
{
    if placement.right < placement.x || placement.bottom < placement.y {
        return Err(Error::OperationFailed);
    }
    let target_width: u32 = placement.right - placement.x;
    let target_height: u32 = placement.bottom - placement.y;
    if target_width == 0 || target_height == 0 || placement.right > width || placement.bottom
        > height {
        return Err(Error::OperationFailed);
    }
    let canvas_bytes: usize = canvas.len();
    let capture_bytes: usize = capture.rgba.len();
    let ghost initial = canvas@;
    let ghost cw = capture.width as int;
    let ghost ch = capture.height as int;
    let ghost tw = target_width as int;
    let ghost th = target_height as int;
    // A capture that already has the size of its rectangle is copied pixel
    // for pixel; otherwise it is scaled.
    let same_size = target_width == capture.width && target_height == capture.height;
    let mut ty: u32 = 0;
    while ty < target_height
        invariant
            initial == old(canvas)@,
            initial.len() == canvas_len(width, height),
            capture.well_formed(),
            canvas_bytes == initial.len(),
            capture_bytes == capture.rgba@.len(),
            cw == capture.width,
            ch == capture.height,
            tw == target_width,
            th == target_height,
            tw == placement.target_width(),
            th == placement.target_height(),
            placement.fits(width, height),
            same_size == (target_width == capture.width && target_height == capture.height),
            ty <= target_height,
            canvas@ == painted_prefix(initial, width as int, placement, capture.rgba@, cw, ch, ty * tw),
        decreases target_height - ty,
    {
        proof {
            assert(ty * ch <= u64::MAX) by (nonlinear_arith)
                requires
                    ty <= u32::MAX,
                    ch <= u32::MAX,
            ;
        }
        let source_y: u64 = if same_size {
            ty as u64
        } else {
            (ty as u64 * capture.height as u64) / target_height as u64
        };
        proof {
            if same_size {
                lemma_fundamental_div_mod_converse(ty * ch, th, ty as int, 0);
            }
            assert(source_y == ty * ch / th);
            lemma_sample_in_capture(cw, ch, tw, th, 0, ty as int);
        }
        let mut tx: u32 = 0;
        while tx < target_width
            invariant
                initial == old(canvas)@,
                initial.len() == canvas_len(width, height),
                capture.well_formed(),
                canvas_bytes == initial.len(),
                capture_bytes == capture.rgba@.len(),
                cw == capture.width,
                ch == capture.height,
                tw == target_width,
                th == target_height,
                tw == placement.target_width(),
                th == placement.target_height(),
                placement.fits(width, height),
                same_size == (target_width == capture.width && target_height == capture.height),
                ty < target_height,
                tx <= target_width,
                source_y == ty * ch / th,
                source_y < ch,
                canvas@ == painted_prefix(
                    initial,
                    width as int,
                    placement,
                    capture.rgba@,
                    cw,
                    ch,
                    ty * tw + tx,
                ),
            decreases target_width - tx,
        {
            proof {
                assert(tx * cw <= u64::MAX) by (nonlinear_arith)
                    requires
                        tx <= u32::MAX,
                        cw <= u32::MAX,
                ;
            }
            let source_x: u64 = if same_size {
                tx as u64
            } else {
                (tx as u64 * capture.width as u64) / target_width as u64
            };
            proof {
                if same_size {
                    lemma_fundamental_div_mod_converse(tx * cw, tw, tx as int, 0);
                }
                assert(source_x == tx * cw / tw);
                lemma_sample_in_capture(cw, ch, tw, th, tx as int, ty as int);
                lemma_pixel_in_canvas(
                    width as int,
                    height as int,
                    (placement.x + tx) as int,
                    (placement.y + ty) as int,
                );
                assert(source_y * cw + source_x < cw * ch) by (nonlinear_arith)
                    requires
                        source_x < cw,
                        source_y < ch,
                ;
                assert((placement.y + ty) * width + placement.x + tx < width * height) by (
                nonlinear_arith)
                    requires
                        placement.x + tx < width,
                        placement.y + ty < height,
                ;
            }
            let source_pixel: u64 = source_y * capture.width as u64 + source_x;
            let source: usize = (source_pixel * 4) as usize;
            let target_pixel: u64 = (placement.y + ty) as u64 * width as u64 + (placement.x + tx) as u64;
            let target: usize = (target_pixel * 4) as usize;
            let ghost before = canvas@;
            canvas[target] = capture.rgba[source];
            canvas[target + 1] = capture.rgba[source + 1];
            canvas[target + 2] = capture.rgba[source + 2];
            canvas[target + 3] = capture.rgba[source + 3];
            proof {
                assert(source == sampled_offset(cw, ch, tw, th, tx as int, ty as int));
                assert(target == 4 * ((placement.y + ty) * width + placement.x + tx));
                lemma_paint_step(
                    initial,
                    width as int,
                    height as int,
                    placement,
                    capture.rgba@,
                    cw,
                    ch,
                    tx as int,
                    ty as int,
                    before,
                    canvas@,
                );
            }
            tx = tx + 1;
        }
        proof {
            assert(ty * tw + tw == (ty + 1) * tw) by (nonlinear_arith);
        }
        ty = ty + 1;
    }
    proof {
        assert(th * tw == tw * th) by (nonlinear_arith);
    }
    Ok(())
}

/// A canvas of `width` by `height` opaque black pixels.
pub open spec fn black_canvas(width: u32, height: u32) -> Seq<u8> {
    Seq::new(canvas_len(width, height) as nat, |i: int| if i % 4 == 3 { 255u8 } else { 0u8 })
}

/// `canvas` with the first `count` captures painted over it in order, each
/// over its own placement, so that later captures cover earlier ones.
pub open spec fn composed(
    canvas: Seq<u8>,
    width: int,
    captures: Seq<PixelCapture>,
    placements: Seq<Placement>,
    count: nat,
) -> Seq<u8>
    decreases count,
{
    if count == 0 {
        canvas
    } else {
        let last = (count - 1) as nat;
        painted(
            composed(canvas, width, captures, placements, last),
            width,
            placements[last as int],
            captures[last as int].rgba@,
            captures[last as int].width as int,
            captures[last as int].height as int,
        )
    }
}

/// Every placement of the layout fits a canvas of `width` by `height` pixels.
pub open spec fn layout_fits(placements: Seq<Placement>, width: u32, height: u32) -> bool {
    forall|i: int| 0 <= i < placements.len() ==> #[trigger] placements[i].fits(width, height)
}

/// Creates a canvas of `width` by `height` opaque black pixels, or fails when
/// its size in bytes does not fit in memory.
pub fn black_pixels(width: u32, height: u32) -> (result: Result<Vec<u8>, Error>)
    ensures
        result is Ok <==> canvas_len(width, height) <= usize::MAX,
        result is Err ==> result == Err::<Vec<u8>, Error>(Error::OperationFailed),
        result matches Ok(canvas) ==> canvas@ == black_canvas(width, height),
{
    let pixel_count = match (width as usize).checked_mul(height as usize) {
        Some(count) => count,
        None => {
            proof {
                assert(width as int * height as int * 4 > usize::MAX) by (nonlinear_arith)
                    requires
                        width as int * height as int > usize::MAX,
                ;
            }
            return Err(Error::OperationFailed);
        },
    };
    if pixel_count.checked_mul(4).is_none() {
        return Err(Error::OperationFailed);
    }
    let mut canvas: Vec<u8> = Vec::new();
    let mut p: usize = 0;
    while p < pixel_count
        invariant
            pixel_count == width as int * height as int,
            pixel_count * 4 <= usize::MAX,
            p <= pixel_count,
            canvas@.len() == 4 * p,
            forall|j: int|
                0 <= j < canvas@.len() ==> #[trigger] canvas@[j] == (if j % 4 == 3 {
                    255u8
                } else {
                    0u8
                }),
        decreases pixel_count - p,
    {
        canvas.push(0);
        canvas.push(0);
        canvas.push(0);
        canvas.push(255);
        proof {
            assert forall|j: int| 4 * p <= j < 4 * p + 4 implies #[trigger] canvas@[j] == (if j % 4
                == 3 {
                255u8
            } else {
                0u8
            }) by {
                lemma_fundamental_div_mod_converse(j, 4, p as int, j - 4 * p);
            }
        }
        p = p + 1;
    }
    proof {
        assert(canvas@ =~= black_canvas(width, height));
    }
    Ok(canvas)
}

/// Paints each capture over its placement on an opaque black canvas of
/// `width` by `height` pixels, in order.
///
/// Fails when the canvas does not fit in memory or a placement is empty or
/// does not fit the canvas.
pub fn compose_canvas(
    width: u32,
    height: u32,
    captures: &Vec<PixelCapture>,
    placements: &Vec<Placement>,
) -> (result: Result<Vec<u8>, Error>)
    requires
        captures@.len() == placements@.len(),
        forall|i: int| 0 <= i < captures@.len() ==> #[trigger] captures@[i].well_formed(),
    ensures
        result is Ok <==> canvas_len(width, height) <= usize::MAX && layout_fits(
            placements@,
            width,
            height,
        ),
        result is Err ==> result == Err::<Vec<u8>, Error>(Error::OperationFailed),
        result matches Ok(canvas) ==> canvas@ == composed(
            black_canvas(width, height),
            width as int,
            captures@,
            placements@,
            captures@.len(),
        ),
{
    let mut canvas = black_pixels(width, height)?;
    let mut n: usize = 0;
    while n < captures.len()
        invariant
            captures@.len() == placements@.len(),
            forall|i: int| 0 <= i < captures@.len() ==> #[trigger] captures@[i].well_formed(),
            n <= captures@.len(),
            canvas_len(width, height) <= usize::MAX,
            forall|i: int| 0 <= i < n ==> #[trigger] placements@[i].fits(width, height),
            canvas@.len() == canvas_len(width, height),
            canvas@ == composed(
                black_canvas(width, height),
                width as int,
                captures@,
                placements@,
                n as nat,
            ),
        decreases captures@.len() - n,
    {
        match copy_capture(&mut canvas, width, height, placements[n], &captures[n]) {
            Ok(()) => {},
            Err(error) => {
                return Err(error);
            },
        }
        n = n + 1;
    }
    Ok(canvas)
}

/// Byte `i` of a canvas `width` pixels wide belongs to a pixel inside the
/// placement's rectangle.
pub open spec fn covers(placement: Placement, width: int, i: int) -> bool {
    &&& placement.x <= (i / 4) % width < placement.right
    &&& placement.y <= (i / 4) / width < placement.bottom
}

/// Painting a capture changes no byte outside its rectangle and keeps the
/// canvas length.
pub proof fn lemma_painting_keeps_outside(
    canvas: Seq<u8>,
    width: int,
    placement: Placement,
    capture: Seq<u8>,
    cw: int,
    ch: int,
    i: int,
)
    requires
        0 <= i < canvas.len(),
        !covers(placement, width, i),
    ensures
        painted(canvas, width, placement, capture, cw, ch).len() == canvas.len(),
        painted(canvas, width, placement, capture, cw, ch)[i] == canvas[i],
{
}

/// Composing keeps the canvas length.
pub proof fn lemma_composed_len(
    canvas: Seq<u8>,
    width: int,
    captures: Seq<PixelCapture>,
    placements: Seq<Placement>,
    count: nat,
)
    ensures
        composed(canvas, width, captures, placements, count).len() == canvas.len(),
    decreases count,
{
    if count > 0 {
        lemma_composed_len(canvas, width, captures, placements, (count - 1) as nat);
    }
}

/// Areas of the composed desktop that no capture covers stay opaque black:
/// every byte whose pixel lies outside all placements is the black canvas's
/// byte.
pub proof fn lemma_gaps_stay_black(
    width: u32,
    height: u32,
    captures: Seq<PixelCapture>,
    placements: Seq<Placement>,
    i: int,
)
    requires
        0 <= i < canvas_len(width, height),
        captures.len() == placements.len(),
        forall|j: int| 0 <= j < placements.len() ==> !covers(#[trigger] placements[j], width as int, i),
    ensures
        composed(black_canvas(width, height), width as int, captures, placements, captures.len())[i]
            == (if i % 4 == 3 {
            255u8
        } else {
            0u8
        }),
{
    lemma_gaps_stay_black_prefix(width, height, captures, placements, i, captures.len());
}

proof fn lemma_gaps_stay_black_prefix(
    width: u32,
    height: u32,
    captures: Seq<PixelCapture>,
    placements: Seq<Placement>,
    i: int,
    count: nat,
)
    requires
        0 <= i < canvas_len(width, height),
        count <= placements.len(),
        forall|j: int| 0 <= j < placements.len() ==> !covers(#[trigger] placements[j], width as int, i),
    ensures
        composed(black_canvas(width, height), width as int, captures, placements, count)[i] == (if i
            % 4 == 3 {
            255u8
        } else {
            0u8
        }),
    decreases count,
{
    if count > 0 {
        let last = (count - 1) as nat;
        lemma_gaps_stay_black_prefix(width, height, captures, placements, i, last);
        lemma_composed_len(black_canvas(width, height), width as int, captures, placements, last);
        assert(!covers(placements[last as int], width as int, i));
        lemma_painting_keeps_outside(
            composed(black_canvas(width, height), width as int, captures, placements, last),
            width as int,
            placements[last as int],
            captures[last as int].rgba@,
            captures[last as int].width as int,
            captures[last as int].height as int,
            i,
        );
    }
}

/// A capture whose placement has exactly its own size is copied pixel for
/// pixel: the canvas pixel at `(x + tx, y + ty)` becomes the capture's pixel
/// at `(tx, ty)`.
pub proof fn lemma_same_size_copies_exactly(
    canvas: Seq<u8>,
    width: u32,
    height: u32,
    placement: Placement,
    capture: PixelCapture,
    tx: int,
    ty: int,
    channel: int,
)
    requires
        canvas.len() == canvas_len(width, height),
        placement.fits(width, height),
        capture.well_formed(),
        placement.target_width() == capture.width,
        placement.target_height() == capture.height,
        0 <= tx < capture.width,
        0 <= ty < capture.height,
        0 <= channel < 4,
    ensures
        painted(
            canvas,
            width as int,
            placement,
            capture.rgba@,
            capture.width as int,
            capture.height as int,
        )[4 * ((placement.y + ty) * width + placement.x + tx) + channel] == capture.rgba@[4 * (ty
            * capture.width + tx) + channel],
{
    let cw = capture.width as int;
    let ch = capture.height as int;
    let px = placement.x + tx;
    let py = placement.y + ty;
    lemma_locate(width as int, px, py, channel);
    lemma_pixel_in_canvas(width as int, height as int, px, py);
    lemma_fundamental_div_mod_converse(tx * cw, cw, tx, 0);
    lemma_fundamental_div_mod_converse(ty * ch, ch, ty, 0);
    assert(ty * cw + tx < cw * ch) by (nonlinear_arith)
        requires
            0 <= tx < cw,
            0 <= ty < ch,
    ;
    assert(sampled_offset(cw, ch, cw, ch, tx, ty) == 4 * (ty * cw + tx));
}

/// Every alpha byte (every fourth byte) of `rgba` is opaque.
pub open spec fn is_opaque(rgba: Seq<u8>) -> bool {
    forall|i: int| 0 <= i < rgba.len() && i % 4 == 3 ==> #[trigger] rgba[i] == 255
}

/// Painting an opaque capture onto an opaque canvas keeps it opaque.
pub proof fn lemma_painting_keeps_opacity(
    canvas: Seq<u8>,
    width: u32,
    height: u32,
    placement: Placement,
    capture: PixelCapture,
)
    requires
        canvas.len() == canvas_len(width, height),
        placement.fits(width, height),
        capture.well_formed(),
        is_opaque(canvas),
        is_opaque(capture.rgba@),
    ensures
        is_opaque(
            painted(
                canvas,
                width as int,
                placement,
                capture.rgba@,
                capture.width as int,
                capture.height as int,
            ),
        ),
{
    let cw = capture.width as int;
    let ch = capture.height as int;
    let tw = placement.target_width();
    let th = placement.target_height();
    let result = painted(canvas, width as int, placement, capture.rgba@, cw, ch);
    assert forall|i: int| 0 <= i < result.len() && i % 4 == 3 implies #[trigger] result[i] == 255 by {
        lemma_split(i, width as int);
        let tx = (i / 4) % (width as int) - placement.x;
        let ty = (i / 4) / (width as int) - placement.y;
        if 0 <= tx < tw && 0 <= ty < th && ty * tw + tx < tw * th {
            lemma_sample_in_capture(cw, ch, tw, th, tx, ty);
            let offset = sampled_offset(cw, ch, tw, th, tx, ty);
            let pixel = (ty * ch / th) * cw + tx * cw / tw;
            lemma_fundamental_div_mod_converse(offset + 3, 4, pixel, 3);
            assert(capture.rgba@[offset + 3] == 255);
        }
    }
}

/// Every screenshot of the whole desktop is opaque: composing opaque
/// captures onto the black canvas gives an opaque canvas.
pub proof fn lemma_composed_is_opaque(
    width: u32,
    height: u32,
    captures: Seq<PixelCapture>,
    placements: Seq<Placement>,
    count: nat,
)
    requires
        count <= captures.len(),
        captures.len() == placements.len(),
        layout_fits(placements, width, height),
        forall|j: int| 0 <= j < captures.len() ==> (#[trigger] captures[j]).well_formed(),
        forall|j: int| 0 <= j < captures.len() ==> is_opaque((#[trigger] captures[j]).rgba@),
    ensures
        is_opaque(composed(black_canvas(width, height), width as int, captures, placements, count)),
    decreases count,
{
    if count == 0 {
        assert(is_opaque(black_canvas(width, height)));
    } else {
        let last = (count - 1) as nat;
        lemma_composed_is_opaque(width, height, captures, placements, last);
        lemma_composed_len(black_canvas(width, height), width as int, captures, placements, last);
        assert(placements[last as int].fits(width, height));
        assert(captures[last as int].well_formed());
        assert(is_opaque(captures[last as int].rgba@));
        lemma_painting_keeps_opacity(
            composed(black_canvas(width, height), width as int, captures, placements, last),
            width,
            height,
            placements[last as int],
            captures[last as int],
        );
    }
}

/// Nearest-neighbour sampling: the source pixel of target pixel `(tx, ty)`
/// is the capture pixel `(sx, sy)` whose span, stretched to the target,
/// contains the target pixel's left and top edge: `sx * tw <= tx * cw <
/// (sx + 1) * tw`, and likewise for rows.
pub proof fn lemma_sampling_is_nearest_neighbour(
    cw: int,
    ch: int,
    tw: int,
    th: int,
    tx: int,
    ty: int,
) -> (source: (int, int))
    requires
        0 < cw,
        0 < ch,
        0 <= tx < tw,
        0 <= ty < th,
    ensures
        0 <= source.0 < cw,
        0 <= source.1 < ch,
        source.0 * tw <= tx * cw < (source.0 + 1) * tw,
        source.1 * th <= ty * ch < (source.1 + 1) * th,
        sampled_offset(cw, ch, tw, th, tx, ty) == 4 * (source.1 * cw + source.0),
{
    lemma_sample_in_capture(cw, ch, tw, th, tx, ty);
    let sx = tx * cw / tw;
    let sy = ty * ch / th;
    lemma_fundamental_div_mod(tx * cw, tw);
    lemma_fundamental_div_mod(ty * ch, th);
    assert(sx * tw <= tx * cw < (sx + 1) * tw) by (nonlinear_arith)
        requires
            tx * cw == tw * sx + (tx * cw) % tw,
            0 <= (tx * cw) % tw < tw,
    ;
    assert(sy * th <= ty * ch < (sy + 1) * th) by (nonlinear_arith)
        requires
            ty * ch == th * sy + (ty * ch) % th,
            0 <= (ty * ch) % th < th,
    ;
    assert(sampled_offset(cw, ch, tw, th, tx, ty) == 4 * (sy * cw + sx));
    (sx, sy)
}

/// The capture painted last lies on top: every byte inside its placement
/// comes from that capture, sampled at the byte's target pixel.
pub proof fn lemma_last_capture_on_top(
    width: u32,
    height: u32,
    captures: Seq<PixelCapture>,
    placements: Seq<Placement>,
    count: nat,
    i: int,
)
    requires
        1 <= count <= captures.len(),
        captures.len() == placements.len(),
        0 <= i < canvas_len(width, height),
        placements[count - 1].fits(width, height),
        covers(placements[count - 1], width as int, i),
    ensures
        ({
            let p = placements[count - 1];
            let c = captures[count - 1];
            composed(black_canvas(width, height), width as int, captures, placements, count)[i]
                == c.rgba@[sampled_offset(
                c.width as int,
                c.height as int,
                p.target_width(),
                p.target_height(),
                (i / 4) % (width as int) - p.x,
                (i / 4) / (width as int) - p.y,
            ) + i % 4]
        }),
{
    let last = (count - 1) as nat;
    let p = placements[last as int];
    lemma_composed_len(black_canvas(width, height), width as int, captures, placements, last);
    let tx = (i / 4) % (width as int) - p.x;
    let ty = (i / 4) / (width as int) - p.y;
    let tw = p.target_width();
    let th = p.target_height();
    assert(ty * tw + tx < tw * th) by (nonlinear_arith)
        requires
            0 <= tx < tw,
            0 <= ty < th,
    ;
}

} // verus!
