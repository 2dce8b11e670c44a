//! Correlation matrices: odd-dimensioned grids of fixed-point weights.

use vstd::prelude::*;

verus! {

/// Largest accepted matrix dimension.  Keeping both dimensions at or below
/// this bound guarantees that a whole weighted window sum fits in an `i64`
/// accumulator (at most `1023 * 1023` terms, each of magnitude at most
/// `2^31 * 255`).
pub const MAX_MATRIX_DIM: u32 = 1023;

/// Mathematical model of a correlation matrix.  The weight at column `i`,
/// row `j` is the rational `weights[j * width + i] / scale`.
#[verifier::ext_equal]
pub ghost struct MatrixView {
    pub width: int,
    pub height: int,
    pub weights: Seq<int>,
    pub scale: int,
}

impl MatrixView {
    /// Validity of a matrix: odd bounded dimensions, one weight per cell,
    /// weights within `i32`, and a positive denominator within `u32`.
    pub open spec fn wf(self) -> bool {
        &&& self.width % 2 == 1
        &&& self.height % 2 == 1
        &&& 1 <= self.width <= MAX_MATRIX_DIM
        &&& 1 <= self.height <= MAX_MATRIX_DIM
        &&& self.weights.len() == self.width * self.height
        &&& forall|k: int|
            0 <= k < self.weights.len() ==> i32::MIN <= #[trigger] self.weights[k] <= i32::MAX
        &&& 1 <= self.scale <= u32::MAX
    }
}

/// Why a correlation matrix could not be constructed.
#[derive(Clone, Copy, Debug, PartialEq, Eq, Structural)]
pub enum MatrixError {
    /// A dimension was even (the window then has no center cell).
    EvenDimension,
    /// The number of weights does not equal `width * height`.
    CountMismatch,
}

/// A correlation matrix: a `width x height` grid of fixed-point weights,
/// stored row-major.  Both dimensions are odd, so the window has a center
/// cell.  The weight in cell `(i, j)` stands for `weights[j * width + i] /
/// scale`.
pub struct CorrelationMatrix {
    width: u32,
    height: u32,
    weights: Vec<i32>,
    scale: u32,
}

impl View for CorrelationMatrix {
    type V = MatrixView;

    closed spec fn view(&self) -> MatrixView {
        MatrixView {
            width: self.width as int,
            height: self.height as int,
            weights: self.weights@.map_values(|w: i32| w as int),
            scale: self.scale as int,
        }
    }
}

impl CorrelationMatrix {
    /// Builds a matrix from its dimensions, its row-major weight numerators
    /// and the common denominator `scale`.  Even dimensions and weight
    /// counts that do not match the dimensions are rejected.
    pub fn new(width: u32, height: u32, weights: Vec<i32>, scale: u32) -> (r: Result<
        CorrelationMatrix,
        MatrixError,
    >)
        requires
            width <= MAX_MATRIX_DIM,
            height <= MAX_MATRIX_DIM,
            1 <= scale,
        ensures
            match r {
                Ok(m) => {
                    &&& width % 2 == 1
                    &&& height % 2 == 1
                    &&& weights.len() == width * height
                    &&& m@.wf()
                    &&& m@.width == width
                    &&& m@.height == height
                    &&& m@.scale == scale
                    &&& m@.weights == weights@.map_values(|w: i32| w as int)
                },
                Err(MatrixError::EvenDimension) => width % 2 == 0 || height % 2 == 0,
                Err(MatrixError::CountMismatch) => {
                    &&& width % 2 == 1
                    &&& height % 2 == 1
                    &&& weights.len() != width * height
                },
            },
    {
        if width % 2 == 0 || height % 2 == 0 {
            return Err(MatrixError::EvenDimension);
        }
        assert((width as int) * (height as int) <= 1023 * 1023) by (nonlinear_arith)
            requires
                width <= 1023,
                height <= 1023,
        ;
        let cells: usize = (width as usize) * (height as usize);
        if weights.len() != cells {
            return Err(MatrixError::CountMismatch);
        }
        let m = CorrelationMatrix { width, height, weights, scale };
        Ok(m)
    }

    /// Number of columns of the matrix.
    pub fn width(&self) -> (r: u32)
        ensures
            r == self@.width,
    {
        self.width
    }

    /// Number of rows of the matrix.
    pub fn height(&self) -> (r: u32)
        ensures
            r == self@.height,
    {
        self.height
    }

    /// The common denominator of the weights.
    pub fn scale(&self) -> (r: u32)
        ensures
            r == self@.scale,
    {
        self.scale
    }

    /// Half the matrix width, rounded down: the horizontal reach of the
    /// window on either side of its center.
    pub fn half_width(&self) -> (r: u32)
        ensures
            r == self@.width / 2,
    {
        self.width / 2
    }

    /// Half the matrix height, rounded down: the vertical reach of the
    /// window on either side of its center.
    pub fn half_height(&self) -> (r: u32)
        ensures
            r == self@.height / 2,
    {
        self.height / 2
    }

    /// The `k`-th weight numerator in row-major order.
    pub fn weight_at(&self, k: usize) -> (r: i32)
        requires
            k < self@.weights.len(),
        ensures
            r == self@.weights[k as int],
    {
        self.weights[k]
    }
}

} // verus!
