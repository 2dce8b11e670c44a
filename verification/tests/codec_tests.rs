use std::io::Cursor;

use correlate2d::codec::{decode_rgba, encode_png, filter_image_bytes, CodecError};
use correlate2d::image2d::Image;
use correlate2d::matrix::CorrelationMatrix;

fn png_bytes(width: u32, height: u32, pixels: Vec<u8>) -> Vec<u8> {
    let buf = image::RgbaImage::from_raw(width, height, pixels).unwrap();
    let mut bytes: Vec<u8> = Vec::new();
    buf.write_to(&mut Cursor::new(&mut bytes), image::ImageFormat::Png)
        .unwrap();
    bytes
}

#[test]
fn decoding_png_bytes_recovers_the_pixels() {
    let pixels: Vec<u8> = vec![1, 2, 3, 4, 5, 6, 7, 8];
    let bytes = png_bytes(2, 1, pixels.clone());
    let im = decode_rgba(&bytes).unwrap();
    assert_eq!(im.width(), 2);
    assert_eq!(im.height(), 1);
    assert_eq!(im.into_pixels(), pixels);
}

#[test]
fn undecodable_bytes_are_rejected() {
    let r = decode_rgba(&vec![1, 2, 3, 4, 5]);
    assert!(matches!(r, Err(CodecError::Undecodable)));
}

#[test]
fn encoded_png_decodes_back_to_the_image() {
    let pixels: Vec<u8> = vec![
        10, 20, 30, 255, 40, 50, 60, 255, //
        70, 80, 90, 255, 100, 110, 120, 255,
    ];
    let img = Image::new(2, 2, pixels.clone()).unwrap();
    let png = encode_png(&img).unwrap();
    let back = image::load_from_memory(&png).unwrap().into_rgba8();
    assert_eq!(back.dimensions(), (2, 2));
    assert_eq!(back.into_raw(), pixels);
}

#[test]
fn filtering_with_identity_passes_reproduces_the_input_pixels() {
    let pixels: Vec<u8> = vec![9, 8, 7, 255, 6, 5, 4, 255, 3, 2, 1, 255];
    let bytes = png_bytes(3, 1, pixels.clone());
    let identity = CorrelationMatrix::new(3, 3, vec![0, 0, 0, 0, 1, 0, 0, 0, 0], 1).unwrap();
    let second = CorrelationMatrix::new(1, 1, vec![1], 1).unwrap();
    let out = filter_image_bytes(&bytes, &identity, &second).unwrap();
    let back = image::load_from_memory(&out).unwrap().into_rgba8();
    assert_eq!(back.dimensions(), (3, 1));
    assert_eq!(back.into_raw(), pixels);
}

#[test]
fn encoding_an_empty_image_fails() {
    let img = Image::new(0, 0, Vec::new()).unwrap();
    let r = encode_png(&img);
    assert!(matches!(r, Err(CodecError::Unencodable)));
}

#[test]
fn filtering_undecodable_bytes_fails() {
    let identity = CorrelationMatrix::new(1, 1, vec![1], 1).unwrap();
    let r = filter_image_bytes(&Vec::new(), &identity, &identity);
    assert!(matches!(r, Err(CodecError::Undecodable)));
}
