use correlate2d::correlate::{correlate, correlate_chain};
use correlate2d::image2d::{Image, ImageError};
use correlate2d::matrix::CorrelationMatrix;

fn identity_3x3(scale: u32) -> CorrelationMatrix {
    let s = scale as i32;
    CorrelationMatrix::new(3, 3, vec![0, 0, 0, 0, s, 0, 0, 0, 0], scale).unwrap()
}

fn constant_image(width: usize, height: usize, color: [u8; 4]) -> Image {
    let mut pixels = Vec::new();
    for _ in 0..width * height {
        pixels.extend_from_slice(&color);
    }
    Image::new(width, height, pixels).unwrap()
}

#[test]
fn image_with_wrong_data_length_is_rejected() {
    let r = Image::new(2, 2, vec![0; 15]);
    assert!(matches!(r, Err(ImageError::SizeMismatch)));
}

#[test]
fn identity_matrix_preserves_image() {
    let pixels: Vec<u8> = vec![
        1, 2, 3, 4, 5, 6, 7, 8, 9, 10, 11, 12, //
        13, 14, 15, 16, 17, 18, 19, 20, 21, 22, 23, 24,
    ];
    let img = Image::new(3, 2, pixels.clone()).unwrap();
    let m = identity_3x3(1);
    let out = correlate(&img, &m);
    assert_eq!(out.width(), 3);
    assert_eq!(out.height(), 2);
    assert_eq!(out.into_pixels(), pixels);
}

#[test]
fn scaled_identity_matrix_preserves_image() {
    let pixels: Vec<u8> = vec![200, 0, 255, 17, 90, 1, 2, 3];
    let img = Image::new(2, 1, pixels.clone()).unwrap();
    let m = identity_3x3(10000);
    let out = correlate(&img, &m);
    assert_eq!(out.into_pixels(), pixels);
}

#[test]
fn uniform_matrix_preserves_constant_color() {
    let img = constant_image(4, 3, [10, 20, 30, 255]);
    let m = CorrelationMatrix::new(3, 3, vec![1; 9], 9).unwrap();
    let out = correlate(&img, &m);
    let expected = constant_image(4, 3, [10, 20, 30, 255]);
    assert_eq!(out.into_pixels(), expected.into_pixels());
}

#[test]
fn chained_identity_passes_reproduce_image() {
    let pixels: Vec<u8> = vec![
        9, 8, 7, 6, 5, 4, 3, 2, //
        1, 0, 255, 254, 100, 101, 102, 103,
    ];
    let img = Image::new(2, 2, pixels.clone()).unwrap();
    let mut blur_weights = vec![0i32; 49];
    blur_weights[24] = 10000;
    let blur = CorrelationMatrix::new(7, 7, blur_weights, 10000).unwrap();
    let sharpen = identity_3x3(1);
    let out = correlate_chain(&img, &blur, &sharpen);
    assert_eq!(out.into_pixels(), pixels);
}

#[test]
fn laplacian_on_gradient_row() {
    // A 3x1 image whose red channel grows left to right; samples beyond
    // the edges clamp to the nearest pixel.
    let img = Image::new(
        3,
        1,
        vec![10, 0, 0, 0, 20, 0, 0, 0, 40, 0, 0, 0],
    )
    .unwrap();
    let m = CorrelationMatrix::new(3, 3, vec![0, 1, 0, 1, -4, 1, 0, 1, 0], 1).unwrap();
    let out = correlate(&img, &m);
    // x = 0: 10 + 10 - 40 + 20 + 10 = 10
    // x = 1: 20 + 10 - 80 + 40 + 20 = 10
    // x = 2: 40 + 20 - 160 + 40 + 40 = -20, clamped to 0
    assert_eq!(
        out.into_pixels(),
        vec![10, 0, 0, 0, 10, 0, 0, 0, 0, 0, 0, 0]
    );
}

#[test]
fn overflowing_channel_clamps_to_255() {
    let img = Image::new(1, 1, vec![200, 128, 0, 255]).unwrap();
    let m = CorrelationMatrix::new(1, 1, vec![2], 1).unwrap();
    let out = correlate(&img, &m);
    assert_eq!(out.into_pixels(), vec![255, 255, 0, 255]);
}

#[test]
fn negative_sum_clamps_to_zero() {
    let img = Image::new(1, 1, vec![200, 1, 0, 255]).unwrap();
    let m = CorrelationMatrix::new(1, 1, vec![-1], 1).unwrap();
    let out = correlate(&img, &m);
    assert_eq!(out.into_pixels(), vec![0, 0, 0, 0]);
}

#[test]
fn normalization_rounds_down() {
    let img = Image::new(1, 1, vec![5, 7, 255, 0]).unwrap();
    let m = CorrelationMatrix::new(1, 1, vec![1], 2).unwrap();
    let out = correlate(&img, &m);
    assert_eq!(out.into_pixels(), vec![2, 3, 127, 0]);
}

#[test]
fn box_blur_averages_neighbors() {
    // A lone bright pixel in the middle of a dark 3x3 image spreads its
    // value over the 3x3 box average.
    let mut pixels = vec![0u8; 36];
    // center pixel (1, 1), red channel
    pixels[(1 * 3 + 1) * 4] = 90;
    let img = Image::new(3, 3, pixels).unwrap();
    let m = CorrelationMatrix::new(3, 3, vec![1; 9], 9).unwrap();
    let out = correlate(&img, &m).into_pixels();
    // every pixel's window holds the bright sample at least once; corner
    // windows (clamped) hold it once, edge windows once, center once:
    // each output red channel is 90 / 9 == 10.
    for y in 0..3 {
        for x in 0..3 {
            assert_eq!(out[(y * 3 + x) * 4], 10);
            assert_eq!(out[(y * 3 + x) * 4 + 1], 0);
        }
    }
}

#[test]
fn empty_image_stays_empty() {
    let img = Image::new(0, 0, Vec::new()).unwrap();
    let m = identity_3x3(1);
    let out = correlate(&img, &m);
    assert_eq!(out.width(), 0);
    assert_eq!(out.height(), 0);
    assert_eq!(out.into_pixels(), Vec::<u8>::new());
}
