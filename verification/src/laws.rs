//! Laws of windowed correlation: identity windows preserve images, uniform
//! unit-sum windows preserve constant colors, and chained identity passes
//! reproduce the original image.

use vstd::arithmetic::div_mod::{
    lemma_div_multiples_vanish, lemma_fundamental_div_mod, lemma_fundamental_div_mod_converse_div,
    lemma_fundamental_div_mod_converse_mod,
};
use vstd::prelude::*;

use crate::correlate::{
    correlated, lemma_flat_decompose, lemma_positive_area, lemma_row_major_bound, norm_clamp,
    sample_x, sample_y, wsum, wsum_upto,
};
use crate::image2d::ImageView;
use crate::matrix::MatrixView;

verus! {

/// Row-major index of the center cell of the matrix window.
pub open spec fn center_index(m: MatrixView) -> int {
    (m.height / 2) * m.width + m.width / 2
}

/// An identity window: the center weight equals the denominator (so the
/// center weight is exactly one) and every other weight is zero.
pub open spec fn is_identity(m: MatrixView) -> bool {
    &&& m.wf()
    &&& m.weights[center_index(m)] == m.scale
    &&& forall|k: int|
        0 <= k < m.weights.len() && k != center_index(m) ==> #[trigger] m.weights[k] == 0
}

/// All weights of the matrix are equal.
pub open spec fn is_uniform(m: MatrixView) -> bool {
    forall|k: int| 0 <= k < m.weights.len() ==> #[trigger] m.weights[k] == m.weights[0]
}

/// Sum of the first `k` weight numerators.
pub open spec fn weights_sum_upto(m: MatrixView, k: nat) -> int
    decreases k,
{
    if k == 0 {
        0
    } else {
        weights_sum_upto(m, (k - 1) as nat) + m.weights[k - 1]
    }
}

/// Sum of all weight numerators.  The matrix weights sum to one exactly
/// when this equals the denominator `scale`.
pub open spec fn weights_sum(m: MatrixView) -> int {
    weights_sum_upto(m, m.weights.len())
}

/// Every pixel of the image holds the same four channel values.
pub open spec fn is_constant_color(img: ImageView, color: Seq<u8>) -> bool {
    &&& color.len() == 4
    &&& forall|x: int, y: int, c: int|
        0 <= x < img.width && 0 <= y < img.height && 0 <= c < 4 ==> #[trigger] img.px(x, y, c)
            == color[c]
}

/// The center cell lies inside the window, and its row-major index
/// decomposes back into the center column and row.
proof fn lemma_center_in_window(m: MatrixView)
    requires
        m.wf(),
    ensures
        0 <= center_index(m) < m.weights.len(),
        center_index(m) % m.width == m.width / 2,
        center_index(m) / m.width == m.height / 2,
{
    lemma_fundamental_div_mod(m.width, 2);
    lemma_fundamental_div_mod(m.height, 2);
    lemma_row_major_bound(m.width / 2, m.height / 2, m.width, m.height);
    lemma_fundamental_div_mod_converse_div(center_index(m), m.width, m.height / 2, m.width / 2);
    lemma_fundamental_div_mod_converse_mod(center_index(m), m.width, m.height / 2, m.width / 2);
}

/// Under an identity window, the partial window sum is zero until the
/// center cell has been added, and from then on the center sample times
/// the denominator.
proof fn lemma_identity_wsum_upto(img: ImageView, m: MatrixView, x: int, y: int, c: int, k: nat)
    requires
        img.wf(),
        is_identity(m),
        0 <= x < img.width,
        0 <= y < img.height,
        0 <= c < 4,
        k <= m.weights.len(),
    ensures
        wsum_upto(img, m, x, y, c, k) == if k > center_index(m) {
            (img.px(x, y, c) as int) * m.scale
        } else {
            0
        },
    decreases k,
{
    if k > 0 {
        let kk = k - 1;
        lemma_identity_wsum_upto(img, m, x, y, c, (k - 1) as nat);
        lemma_center_in_window(m);
        if kk == center_index(m) {
            assert(sample_x(img, m, x, kk) == x);
            assert(sample_y(img, m, y, kk) == y);
            assert(m.weights[kk] * (img.px(x, y, c) as int) == (img.px(x, y, c) as int)
                * m.scale) by (nonlinear_arith)
                requires
                    m.weights[kk] == m.scale,
            ;
        } else {
            assert(m.weights[kk] == 0);
        }
    }
}

/// Correlating with an identity window leaves every image unchanged: with
/// a lone unit weight at the window center, each output channel is exactly
/// the input channel under it.
pub proof fn lemma_identity_preserves(img: ImageView, m: MatrixView)
    requires
        img.wf(),
        is_identity(m),
    ensures
        correlated(img, m) == img,
{
    let co = correlated(img, m);
    assert forall|n: int| 0 <= n < img.data.len() implies co.data[n] == img.data[n] by {
        lemma_positive_area(img.width, img.height);
        lemma_flat_decompose(n, img.width, img.height);
        let x = (n / 4) % img.width;
        let y = (n / 4) / img.width;
        let c = n % 4;
        lemma_center_in_window(m);
        lemma_row_major_bound(m.width / 2, m.height / 2, m.width, m.height);
        lemma_identity_wsum_upto(img, m, x, y, c, m.weights.len());
        let px = img.px(x, y, c) as int;
        assert(wsum(img, m, x, y, c) == px * m.scale);
        assert(0 <= px * m.scale && px * m.scale == m.scale * px) by (nonlinear_arith)
            requires
                0 <= px,
                0 < m.scale,
        ;
        lemma_div_multiples_vanish(px, m.scale);
        assert(norm_clamp(wsum(img, m, x, y, c), m.scale) == img.px(x, y, c));
    };
    assert(co.data =~= img.data);
    assert(co =~= img);
}

/// Under any window, the partial window sum over a constant-color image is
/// the channel value times the partial weight sum.
proof fn lemma_constant_wsum_upto(
    img: ImageView,
    m: MatrixView,
    color: Seq<u8>,
    x: int,
    y: int,
    c: int,
    k: nat,
)
    requires
        img.wf(),
        m.wf(),
        is_constant_color(img, color),
        0 <= x < img.width,
        0 <= y < img.height,
        0 <= c < 4,
        k <= m.weights.len(),
    ensures
        wsum_upto(img, m, x, y, c, k) == (color[c] as int) * weights_sum_upto(m, k),
    decreases k,
{
    let a = color[c] as int;
    if k == 0 {
        assert(a * 0 == 0) by (nonlinear_arith);
    } else {
        let kk = k - 1;
        lemma_constant_wsum_upto(img, m, color, x, y, c, (k - 1) as nat);
        let sx = sample_x(img, m, x, kk);
        let sy = sample_y(img, m, y, kk);
        assert(0 <= sx < img.width && 0 <= sy < img.height);
        assert(img.px(sx, sy, c) == color[c]);
        let s = weights_sum_upto(m, (k - 1) as nat);
        let w = m.weights[kk];
        assert(a * s + w * a == a * (s + w)) by (nonlinear_arith);
    }
}

/// Correlating a constant-color image with a uniform window whose weights
/// sum to one reproduces the constant color in every output pixel.
pub proof fn lemma_uniform_preserves_constant(img: ImageView, m: MatrixView, color: Seq<u8>)
    requires
        img.wf(),
        m.wf(),
        is_uniform(m),
        weights_sum(m) == m.scale,
        is_constant_color(img, color),
    ensures
        is_constant_color(correlated(img, m), color),
{
    let co = correlated(img, m);
    assert forall|x: int, y: int, c: int|
        0 <= x < co.width && 0 <= y < co.height && 0 <= c < 4 implies co.px(x, y, c)
        == color[c] by {
        lemma_row_major_bound(x, y, img.width, img.height);
        let cell = y * img.width + x;
        let n = cell * 4 + c;
        lemma_fundamental_div_mod_converse_div(n, 4, cell, c);
        lemma_fundamental_div_mod_converse_mod(n, 4, cell, c);
        lemma_fundamental_div_mod_converse_div(cell, img.width, y, x);
        lemma_fundamental_div_mod_converse_mod(cell, img.width, y, x);
        lemma_constant_wsum_upto(img, m, color, x, y, c, m.weights.len());
        let a = color[c] as int;
        assert(wsum(img, m, x, y, c) == a * m.scale);
        assert(0 <= a * m.scale && a * m.scale == m.scale * a) by (nonlinear_arith)
            requires
                0 <= a,
                0 < m.scale,
        ;
        lemma_div_multiples_vanish(a, m.scale);
        assert(norm_clamp(wsum(img, m, x, y, c), m.scale) == color[c]);
    };
}

/// Chained passes with identity windows reproduce the original image: a
/// blur pass that preserves every image, followed by a sharpen pass that
/// does too, leaves the image unchanged.
pub proof fn lemma_chained_identity_passes(img: ImageView, blur: MatrixView, sharpen: MatrixView)
    requires
        img.wf(),
        is_identity(blur),
        is_identity(sharpen),
    ensures
        correlated(correlated(img, blur), sharpen) == img,
{
    lemma_identity_preserves(img, blur);
    lemma_identity_preserves(img, sharpen);
}

} // verus!
