use snip_rust::capture::{crop_area_frame, CaptureError, CapturedImage, Rect};
use snip_rust::codec::{decode_image, encode_png, DecodeError, EncodeError};
use snip_rust::pixel::crop_rgba;

const PNG_SIGNATURE: [u8; 8] = [137, 80, 78, 71, 13, 10, 26, 10];

#[test]
fn capture_test_bgra_to_rgba_conversion() {
    // One BGRA pixel: blue=10, green=20, red=30, alpha=255 -> RGBA 30,20,10,255.
    let bgra = vec![10u8, 20u8, 30u8, 255u8];
    let rgba = snip_rust::bgra_to_rgba(&bgra, 1, 1);
    assert_eq!(rgba, vec![30, 20, 10, 255]);
}

#[test]
fn screenshot_test_bgra_to_rgba_conversion() {
    let bgra = vec![10u8, 20u8, 30u8, 255u8];
    let rgba = snip_rust::screenshot::bgra_to_rgba(&bgra, 1, 1);
    assert_eq!(rgba, vec![30, 20, 10, 255]);
}

#[test]
fn capture_test_encode_png_signature() {
    // Two pixels: red, green.
    let mut data = Vec::new();
    data.extend_from_slice(&[255, 0, 0, 255]);
    data.extend_from_slice(&[0, 255, 0, 255]);
    let png = encode_png(&data, 2, 1).unwrap();
    assert!(png.starts_with(&PNG_SIGNATURE));
}

#[test]
fn screenshot_test_encode_png_signature() {
    let mut data = Vec::new();
    data.extend_from_slice(&[255, 0, 0, 255]);
    data.extend_from_slice(&[0, 255, 0, 255]);
    let png = encode_png(&data, 2, 1).unwrap();
    assert!(png.starts_with(&PNG_SIGNATURE));
}

#[test]
fn bgra_to_rgba_pads_partial_chunks() {
    // A trailing partial chunk is dropped and the output zero-padded.
    let bgra = vec![1u8, 2u8, 3u8];
    let rgba = snip_rust::bgra_to_rgba(&bgra, 1, 1);
    assert_eq!(rgba, vec![0, 0, 0, 0]);
}

#[test]
fn encode_png_rejects_wrong_buffer_length() {
    let data = vec![0u8; 3];
    assert_eq!(encode_png(&data, 1, 1), Err(EncodeError::SizeMismatch));
}

#[test]
fn encode_png_rejects_zero_dimensions() {
    let data: Vec<u8> = Vec::new();
    assert_eq!(encode_png(&data, 0, 0), Err(EncodeError::EncodeFailed));
}

#[test]
fn decode_image_rejects_garbage() {
    let junk = vec![1u8, 2, 3, 4, 5];
    assert_eq!(decode_image(&junk), Err(DecodeError::DecodeFailed));
}

#[test]
fn encode_decode_round_trip() {
    let mut data = Vec::new();
    for i in 0..12u8 {
        data.push(i.wrapping_mul(17));
    }
    let png = encode_png(&data, 3, 1).unwrap();
    let (w, h, rgba) = decode_image(&png).unwrap();
    assert_eq!((w, h), (3, 1));
    assert_eq!(&rgba[..12], &data[..]);
}

#[test]
fn crop_has_exact_dimensions_and_bytes() {
    // A 4x3 RGBA image whose byte at (x, y, c) is y*16 + x*4 + c.
    let mut pixels = Vec::new();
    for y in 0..3u8 {
        for x in 0..4u8 {
            for c in 0..4u8 {
                pixels.push(y * 16 + x * 4 + c);
            }
        }
    }
    let crop = crop_rgba(&pixels, 4, 3, 1, 1, 2, 2);
    assert_eq!(crop.len(), 2 * 2 * 4);
    let expected = vec![
        20, 21, 22, 23, 24, 25, 26, 27, // row y=1, x=1..3
        36, 37, 38, 39, 40, 41, 42, 43, // row y=2, x=1..3
    ];
    assert_eq!(crop, expected);
}

fn frame_4x3_at(ox: i32, oy: i32) -> CapturedImage {
    // A 4x3 RGBA frame whose byte at (x, y, c) is y*16 + x*4 + c.
    let mut pixels = Vec::new();
    for y in 0..3u8 {
        for x in 0..4u8 {
            for c in 0..4u8 {
                pixels.push(y * 16 + x * 4 + c);
            }
        }
    }
    CapturedImage { width: 4, height: 3, origin_x: ox, origin_y: oy, pixels }
}

#[test]
fn area_crop_takes_the_exact_intersection() {
    let img = frame_4x3_at(10, 20);
    // Request (11,21) 2x2: frame-local (1,1), fully inside.
    let png = crop_area_frame(&img, Rect { x: 11, y: 21, width: 2, height: 2 }).unwrap();
    let (w, h, rgba) = decode_image(&png).unwrap();
    assert_eq!((w, h), (2, 2));
    let expected = vec![
        20, 21, 22, 23, 24, 25, 26, 27, // row y=1, x=1..3
        36, 37, 38, 39, 40, 41, 42, 43, // row y=2, x=1..3
    ];
    assert_eq!(&rgba[..16], &expected[..]);
}

#[test]
fn area_crop_clamps_partial_overlap_silently() {
    let img = frame_4x3_at(10, 20);
    // The request hangs past the right and bottom edges: clamped, no error.
    let png = crop_area_frame(&img, Rect { x: 12, y: 21, width: 100, height: 100 }).unwrap();
    let (w, h, _) = decode_image(&png).unwrap();
    assert_eq!((w, h), (2, 2));
    // A corner left and above the monitor clamps to the frame origin.
    let png = crop_area_frame(&img, Rect { x: 9, y: 19, width: 10, height: 10 }).unwrap();
    let (w, h, _) = decode_image(&png).unwrap();
    assert_eq!((w, h), (4, 3));
}

#[test]
fn area_crop_rejects_zero_overlap_only() {
    let img = frame_4x3_at(10, 20);
    // Entirely right of the frame.
    assert_eq!(
        crop_area_frame(&img, Rect { x: 14, y: 21, width: 5, height: 5 }),
        Err(CaptureError::EmptyArea)
    );
    // Zero-sized request.
    assert_eq!(
        crop_area_frame(&img, Rect { x: 11, y: 21, width: 0, height: 2 }),
        Err(CaptureError::EmptyArea)
    );
}
