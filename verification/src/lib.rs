//! Windowed 2D correlation over RGBA images.
//!
//! An image is a row-major grid of RGBA pixels with 8-bit channels.  A
//! correlation matrix is an odd-dimensioned grid of fixed-point weights
//! (an integer numerator over a common positive denominator).  Correlating
//! an image with a matrix slides the matrix window over every pixel
//! position, sums the weighted samples per channel (clamping sample
//! coordinates to the image edges), divides by the denominator and clamps
//! the result back into the 8-bit channel range.

pub mod codec;
pub mod correlate;
pub mod image2d;
pub mod laws;
pub mod matrix;
pub mod select;
