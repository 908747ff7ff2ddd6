use emoji_links::error::ApiError;
use emoji_links::visual::{
    encode_png, generate_visual_hash, paint_fingerprint, qr_code, visual_hash, Bitmap,
    PixelFormat, FINGERPRINT_SIDE,
};

const PNG_SIGNATURE: [u8; 8] = [0x89, 0x50, 0x4E, 0x47, 0x0D, 0x0A, 0x1A, 0x0A];

// SHA-256 of "abc".
const ABC_DIGEST: [u8; 32] = [
    0xba, 0x78, 0x16, 0xbf, 0x8f, 0x01, 0xcf, 0xea, 0x41, 0x41, 0x40, 0xde, 0x5d, 0xae, 0x22,
    0x23, 0xb0, 0x03, 0x61, 0xa3, 0x96, 0x17, 0x7a, 0x9c, 0xb4, 0x10, 0xff, 0x61, 0xf2, 0x00,
    0x15, 0xad,
];

fn pixel(picture: &Bitmap, x: usize, y: usize) -> [u8; 4] {
    let at = (y * 256 + x) * 4;
    [picture.pixels[at], picture.pixels[at + 1], picture.pixels[at + 2], picture.pixels[at + 3]]
}

#[test]
fn fingerprint_has_the_fixed_size() {
    let picture = generate_visual_hash("abc");
    assert_eq!(FINGERPRINT_SIDE, 256);
    assert_eq!(picture.width, 256);
    assert_eq!(picture.height, 256);
    assert_eq!(picture.format, PixelFormat::Rgba);
    assert_eq!(picture.pixels.len(), 256 * 256 * 4);
}

#[test]
fn fingerprint_pixels_follow_the_digest() {
    let picture = generate_visual_hash("abc");
    assert_eq!(pixel(&picture, 0, 0), [0xba, 0xba, 0xba, 255]);
    assert_eq!(pixel(&picture, 1, 0), [0x79, 0x78, 0x79, 255]);
    // digest byte 5 is 0x01: red 1 + 3, green 1 - 2 round 256, blue 1 ^ 5
    assert_eq!(pixel(&picture, 3, 2), [0x04, 0xff, 0x04, 255]);
    // position 255 + 255 = 510 = 15 * 32 + 30: digest byte 30 is 0x15
    assert_eq!(pixel(&picture, 255, 255), [0x14, 0x16, 0x15 ^ 0xfe, 255]);
}

#[test]
fn fingerprint_is_painted_from_the_digest() {
    assert_eq!(generate_visual_hash("abc"), paint_fingerprint(&ABC_DIGEST));
}

#[test]
fn every_pixel_follows_the_formula() {
    let picture = paint_fingerprint(&ABC_DIGEST);
    for y in 0..256usize {
        for x in 0..256usize {
            let byte = ABC_DIGEST[(x + y) % 32];
            let expected = [
                byte.wrapping_add(x as u8),
                byte.wrapping_sub(y as u8),
                byte ^ (x as u8).wrapping_add(y as u8),
                255,
            ];
            assert_eq!(pixel(&picture, x, y), expected);
        }
    }
}

#[test]
fn painting_from_a_short_digest_wraps_round_it() {
    let picture = paint_fingerprint(&[7]);
    assert_eq!(pixel(&picture, 0, 0), [7, 7, 7, 255]);
    assert_eq!(pixel(&picture, 10, 20), [17, 243, 7 ^ 30, 255]);
}

#[test]
fn different_identifiers_give_different_fingerprints() {
    assert_ne!(generate_visual_hash("abc").pixels, generate_visual_hash("abd").pixels);
    assert_eq!(generate_visual_hash("abc").pixels, generate_visual_hash("abc").pixels);
}

#[test]
fn fingerprint_of_the_empty_identifier() {
    // SHA-256 of the empty input starts with e3 b0 c4 42.
    let picture = generate_visual_hash("");
    assert_eq!(pixel(&picture, 0, 0), [0xe3, 0xe3, 0xe3, 255]);
    assert_eq!(pixel(&picture, 1, 0), [0xb1, 0xb0, 0xb1, 255]);
}

#[test]
fn visual_hash_is_a_png_of_the_fingerprint() {
    let file = visual_hash("abc").expect("the picture is encoded");
    assert_eq!(&file[..8], &PNG_SIGNATURE);
    let decoded = image::load_from_memory(&file).expect("the file decodes").to_rgba8();
    assert_eq!(decoded.dimensions(), (256, 256));
    assert_eq!(decoded.into_raw(), generate_visual_hash("abc").pixels);
}

#[test]
fn encode_png_of_a_small_gray_picture() {
    let picture =
        Bitmap { width: 2, height: 2, format: PixelFormat::Gray, pixels: vec![0, 255, 128, 64] };
    let file = encode_png(&picture).expect("the picture is encoded");
    assert_eq!(&file[..8], &PNG_SIGNATURE);
    let decoded = image::load_from_memory(&file).expect("the file decodes").to_luma8();
    assert_eq!(decoded.dimensions(), (2, 2));
    assert_eq!(decoded.into_raw(), vec![0, 255, 128, 64]);
}

#[test]
fn qr_code_is_a_png_of_the_code() {
    let destination = "https://example.com/some/long/path";
    let file = qr_code(destination).expect("the code is drawn");
    assert_eq!(&file[..8], &PNG_SIGNATURE);
    let decoded = image::load_from_memory(&file).expect("the file decodes").to_luma8();
    let code = qrcode::QrCode::new(destination.as_bytes()).expect("the data fits");
    let expected = code.render::<image::Luma<u8>>().quiet_zone(false).build();
    assert_eq!(decoded.dimensions(), expected.dimensions());
    assert_eq!(decoded.dimensions().0 as usize, code.width() * 8);
    assert_eq!(decoded.into_raw(), expected.into_raw());
}

#[test]
fn qr_codes_differ_with_the_destination() {
    assert_ne!(qr_code("https://a.example").unwrap(), qr_code("https://b.example").unwrap());
}

#[test]
fn qr_code_of_too_much_data_is_an_internal_error() {
    let destination = "x".repeat(8000);
    let cause = match qrcode::QrCode::new(destination.as_bytes()) {
        Ok(_) => panic!("the data is too long for a code"),
        Err(cause) => cause,
    };
    match qr_code(&destination) {
        Err(ApiError::Internal(text)) => {
            assert!(!text.is_empty());
            assert_eq!(text, cause.to_string());
        }
        other => panic!("expected an internal error, got {other:?}"),
    }
}

#[test]
fn encode_png_of_an_empty_picture_fails_with_the_encoder_s_description() {
    let picture = Bitmap { width: 0, height: 0, format: PixelFormat::Gray, pixels: Vec::new() };
    match encode_png(&picture) {
        Ok(file) => assert_eq!(&file[..8], &PNG_SIGNATURE),
        Err(ApiError::Internal(text)) => assert!(!text.is_empty()),
        Err(other) => panic!("expected an internal error, got {other:?}"),
    }
}
