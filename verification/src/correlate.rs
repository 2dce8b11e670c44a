//! Windowed 2D correlation of an RGBA image with a correlation matrix.
//!
//! For each output pixel at `(x, y)` and each channel, the weighted window
//! sum adds `input[x + i - width/2, y + j - height/2] * matrix[i, j]` over
//! all matrix cells `(i, j)`.  Sample coordinates outside the image are
//! clamped to the nearest edge.  The sum of numerators is divided by the
//! matrix denominator and the result clamped into the 8-bit channel range.

use vstd::arithmetic::div_mod::lemma_fundamental_div_mod;
use vstd::prelude::*;

use crate::image2d::{Image, ImageView};
use crate::matrix::{CorrelationMatrix, MatrixView};

verus! {

/// Clamps an index to the valid range `0 .. len` (the edge policy: samples
/// outside the image repeat the nearest edge pixel).
pub open spec fn clamp_idx(v: int, len: int) -> int {
    if v < 0 {
        0
    } else if v >= len {
        len - 1
    } else {
        v
    }
}

/// Column sampled for matrix cell `k` (row-major) at output column `x`.
pub open spec fn sample_x(img: ImageView, m: MatrixView, x: int, k: int) -> int {
    clamp_idx(x + k % m.width - m.width / 2, img.width)
}

/// Row sampled for matrix cell `k` (row-major) at output row `y`.
pub open spec fn sample_y(img: ImageView, m: MatrixView, y: int, k: int) -> int {
    clamp_idx(y + k / m.width - m.height / 2, img.height)
}

/// Partial weighted window sum over the first `k` matrix cells, for the
/// output pixel at `(x, y)`, channel `c`.  The value is a sum of weight
/// numerators times samples; the matrix denominator is divided out later.
pub open spec fn wsum_upto(
    img: ImageView,
    m: MatrixView,
    x: int,
    y: int,
    c: int,
    k: nat,
) -> int
    decreases k,
{
    if k == 0 {
        0
    } else {
        wsum_upto(img, m, x, y, c, (k - 1) as nat) + m.weights[k - 1] * (img.px(
            sample_x(img, m, x, k - 1),
            sample_y(img, m, y, k - 1),
            c,
        ) as int)
    }
}

/// The full weighted window sum for the output pixel at `(x, y)`, channel
/// `c`.
pub open spec fn wsum(img: ImageView, m: MatrixView, x: int, y: int, c: int) -> int {
    wsum_upto(img, m, x, y, c, (m.width * m.height) as nat)
}

/// Divides a window sum by the matrix denominator and clamps the result
/// into the 8-bit channel range.
pub open spec fn norm_clamp(acc: int, scale: int) -> u8 {
    if acc < 0 {
        0
    } else if acc / scale > 255 {
        255
    } else {
        (acc / scale) as u8
    }
}

/// The byte at flat index `n` of the correlated image.
pub open spec fn out_byte(img: ImageView, m: MatrixView, n: int) -> u8 {
    norm_clamp(wsum(img, m, (n / 4) % img.width, (n / 4) / img.width, n % 4), m.scale)
}

/// The correlation of `img` with `m`: an image of the same dimensions
/// whose every channel holds its normalized, clamped window sum.
pub open spec fn correlated(img: ImageView, m: MatrixView) -> ImageView {
    ImageView {
        width: img.width,
        height: img.height,
        data: Seq::new((img.width * img.height * 4) as nat, |n: int| out_byte(img, m, n)),
    }
}

/// A row-major cell index lies inside the flat grid.
pub proof fn lemma_row_major_bound(x: int, y: int, w: int, h: int)
    by (nonlinear_arith)
    requires
        0 <= x < w,
        0 <= y < h,
    ensures
        0 <= y * w + x,
        y * w + x < w * h,
        (y * w + x) * 4 + 3 < w * h * 4,
{
}

/// A grid with at least one byte of pixel data has positive dimensions.
pub proof fn lemma_positive_area(w: int, h: int)
    by (nonlinear_arith)
    requires
        0 <= w,
        0 <= h,
        0 < w * h * 4,
    ensures
        0 < w,
        0 < h,
{
}

/// One window term is bounded by the largest weight magnitude times the
/// largest channel value: `2^31 * 255`.
proof fn lemma_term_bound(w: int, p: int)
    by (nonlinear_arith)
    requires
        -0x8000_0000 <= w <= 0x7FFF_FFFF,
        0 <= p <= 255,
    ensures
        -547608330240 <= w * p <= 547608330240,
{
}

/// Decomposes a flat byte index into its pixel coordinates and channel,
/// and bounds each part by the grid dimensions.
pub proof fn lemma_flat_decompose(n: int, w: int, h: int)
    requires
        0 < w,
        0 < h,
        0 <= n < w * h * 4,
    ensures
        0 <= n % 4 < 4,
        0 <= (n / 4) % w < w,
        0 <= (n / 4) / w < h,
        ((n / 4) / w * w + (n / 4) % w) * 4 + n % 4 == n,
{
    lemma_fundamental_div_mod(n, 4);
    let cell = n / 4;
    assert(cell < w * h) by (nonlinear_arith)
        requires
            n == 4 * cell + n % 4,
            n % 4 < 4,
            n < w * h * 4,
    ;
    lemma_fundamental_div_mod(cell, w);
    assert((cell / w) < h) by (nonlinear_arith)
        requires
            cell == w * (cell / w) + cell % w,
            0 <= cell % w,
            cell < w * h,
            0 < w,
    ;
}

/// Correlates `img` with the matrix `m`, producing an image of the same
/// dimensions whose every channel holds the normalized, clamped weighted
/// window sum of the input around that pixel.
#[verifier::loop_isolation(false)]
pub fn correlate(img: &Image, m: &CorrelationMatrix) -> (out: Image)
    requires
        img@.wf(),
        m@.wf(),
    ensures
        out@ == correlated(img@, m@),
        out@.wf(),
{
    let width: usize = img.width();
    let height: usize = img.height();
    let total: usize = img.byte_len();
    let mw: usize = m.width() as usize;
    let mh: usize = m.height() as usize;
    let hw: usize = m.half_width() as usize;
    let hh: usize = m.half_height() as usize;
    let scale: u32 = m.scale();
    assert((mw as int) * (mh as int) <= 1023 * 1023) by (nonlinear_arith)
        requires
            mw <= 1023,
            mh <= 1023,
    ;
    let count: usize = mw * mh;
    let mut out_vec: Vec<u8> = Vec::new();
    let mut n: usize = 0;
    while n < total
        invariant
            n <= total,
            out_vec@.len() == n,
            forall|q: int| 0 <= q < n ==> out_vec@[q] == out_byte(img@, m@, q),
        decreases total - n,
    {
        proof {
            lemma_positive_area(img@.width, img@.height);
            lemma_flat_decompose(n as int, img@.width, img@.height);
        }
        let cell: usize = n / 4;
        let c: usize = n % 4;
        let x: usize = cell % width;
        let y: usize = cell / width;
        let mut acc: i64 = 0;
        let mut k: usize = 0;
        while k < count
            invariant
                k <= count,
                acc == wsum_upto(img@, m@, x as int, y as int, c as int, k as nat),
                -(k as int) * 547608330240 <= acc <= (k as int) * 547608330240,
            decreases count - k,
        {
            let w_k: i32 = m.weight_at(k);
            let i: usize = k % mw;
            let j: usize = k / mw;
            let xi: i64 = x as i64 + i as i64 - hw as i64;
            let sx: usize = if xi < 0 {
                0
            } else if xi >= width as i64 {
                width - 1
            } else {
                xi as usize
            };
            let yj: i64 = y as i64 + j as i64 - hh as i64;
            let sy: usize = if yj < 0 {
                0
            } else if yj >= height as i64 {
                height - 1
            } else {
                yj as usize
            };
            let p: u8 = img.channel_at(sx, sy, c);
            proof {
                lemma_term_bound(w_k as int, p as int);
            }
            let term: i64 = (w_k as i64) * (p as i64);
            acc = acc + term;
            k = k + 1;
        }
        let v: u8 = if acc < 0 {
            0
        } else {
            let q: u64 = (acc as u64) / (scale as u64);
            if q > 255 {
                255
            } else {
                q as u8
            }
        };
        assert(v == out_byte(img@, m@, n as int));
        out_vec.push(v);
        n = n + 1;
    }
    assert(out_vec@ =~= correlated(img@, m@).data);
    let out = Image::from_parts(width, height, out_vec);
    proof {
        assert(out@ =~= correlated(img@, m@));
    }
    out
}

/// Runs two correlation passes in sequence: the output of the first pass
/// (say, a blur) feeds the second (say, a sharpen or edge detection).
pub fn correlate_chain(img: &Image, first: &CorrelationMatrix, second: &CorrelationMatrix) -> (out:
    Image)
    requires
        img@.wf(),
        first@.wf(),
        second@.wf(),
    ensures
        out@ == correlated(correlated(img@, first@), second@),
        out@.wf(),
{
    let mid = correlate(img, first);
    correlate(&mid, second)
}

} // verus!
