//! Pictures of a link: a visual fingerprint of its identifier and a QR code
//! of its destination, both as PNG files.

use crate::error::{ApiError, ApiErrorView};
use sha2::Digest;
use vstd::prelude::*;
use vstd::string::{to_string_from_display_ensures, StringSliceAdditionalSpecFns};

verus! {

/// Side of the fingerprint picture, in pixels.
pub const FINGERPRINT_SIDE: u32 = 256;

/// How the bytes of a picture make up its pixels.
#[derive(Debug, Clone, Copy, PartialEq, Eq)]
pub enum PixelFormat {
    /// One byte for each pixel: its brightness.
    Gray,
    /// Four bytes for each pixel: red, green, blue and opacity.
    Rgba,
}

/// A picture as plain bytes, row after row from the top.
#[derive(Debug, Clone, PartialEq, Eq)]
pub struct Bitmap {
    pub width: u32,
    pub height: u32,
    pub format: PixelFormat,
    pub pixels: Vec<u8>,
}

/// Number of bytes that one pixel takes.
pub open spec fn bytes_per_pixel(format: PixelFormat) -> int {
    match format {
        PixelFormat::Gray => 1,
        PixelFormat::Rgba => 4,
    }
}

impl Bitmap {
    /// Whether the picture holds exactly the bytes of its pixels.
    pub open spec fn well_formed(&self) -> bool {
        self.pixels@.len() == self.width * self.height * bytes_per_pixel(self.format)
    }
}

/// The SHA-256 digest of `data`, as `sha2::Sha256::digest` computes it.
pub uninterp spec fn sha256_digest(data: Seq<u8>) -> Seq<u8>;

/// The PNG file that `image::write_buffer_with_format` writes for a picture
/// of the given bytes and size, with `channels` bytes for each pixel, and
/// `None` where it reports an error.
pub uninterp spec fn png_encoding(bytes: Seq<u8>, width: u32, height: u32, channels: int) -> Option<Seq<u8>>;

/// The picture that the `qrcode` crate draws of the QR code of `data`, at
/// medium error correction and without a quiet zone, as width, height and
/// one byte of brightness for each pixel; `None` where `data` does not fit
/// in a QR code.
pub uninterp spec fn qr_rendering(data: Seq<u8>) -> Option<(u32, u32, Seq<u8>)>;

/// `image::ImageError`, the error of the PNG encoder. Nothing is known of
/// what it holds.
#[verifier::external_type_specification]
#[verifier::external_body]
pub struct ExImageError(image::ImageError);

/// `qrcode::types::QrError`, the error of the QR encoder. Nothing is known
/// of what it holds.
#[verifier::external_type_specification]
#[verifier::external_body]
pub struct ExQrError(qrcode::types::QrError);

/// `sha2::Sha256::digest`: the digest of `data`, which has 32 bytes.
#[verifier::external_body]
fn sha256(data: &[u8]) -> (digest: Vec<u8>)
    ensures
        digest@ == sha256_digest(data@),
        digest@.len() == 32,
{
    sha2::Sha256::digest(data).to_vec()
}

/// `image::write_buffer_with_format` with the PNG format, into memory: the
/// file for the picture, or the encoder's error. The encoder panics on a
/// buffer that does not hold exactly the bytes of the pixels, which
/// `well_formed` rules out.
#[verifier::external_body]
fn write_png(picture: &Bitmap) -> (file: Result<Vec<u8>, image::ImageError>)
    requires
        picture.well_formed(),
    ensures
        match file {
            Ok(bytes) => png_encoding(
                picture.pixels@,
                picture.width,
                picture.height,
                bytes_per_pixel(picture.format),
            ) == Some(bytes@),
            Err(_) => png_encoding(
                picture.pixels@,
                picture.width,
                picture.height,
                bytes_per_pixel(picture.format),
            ) is None,
        },
{
    let color = match picture.format {
        PixelFormat::Gray => image::ColorType::L8,
        PixelFormat::Rgba => image::ColorType::Rgba8,
    };
    let mut bytes = Vec::new();
    image::write_buffer_with_format(
        &mut std::io::Cursor::new(&mut bytes),
        &picture.pixels,
        picture.width,
        picture.height,
        color,
        image::ImageOutputFormat::Png,
    )?;
    Ok(bytes)
}

/// `qrcode::QrCode::new`, drawn by `render` as a gray picture without quiet
/// zone: the picture, which holds one byte for each pixel, or the error of
/// the encoder.
#[verifier::external_body]
fn render_qr(data: &[u8]) -> (drawn: Result<Bitmap, qrcode::types::QrError>)
    ensures
        match drawn {
            Ok(picture) => {
                &&& qr_rendering(data@) == Some((picture.width, picture.height, picture.pixels@))
                &&& picture.format == PixelFormat::Gray
                &&& picture.well_formed()
            },
            Err(_) => qr_rendering(data@) is None,
        },
{
    let code = qrcode::QrCode::new(data)?;
    let image = code.render::<image::Luma<u8>>().quiet_zone(false).build();
    Ok(
        Bitmap {
            width: image.width(),
            height: image.height(),
            format: PixelFormat::Gray,
            pixels: image.into_raw(),
        },
    )
}

/// The four bytes of the fingerprint's pixel in column `x` and row `y`,
/// for a digest `hash`.
///
/// The digest byte at position `x + y`, counted round the digest, is
/// shifted up by `x` for red and down by `y` for green, both round 256,
/// and combined bit by bit with `x + y` round 256 for blue. The pixel is
/// opaque.
pub open spec fn fingerprint_pixel(hash: Seq<u8>, x: int, y: int) -> Seq<u8> {
    let byte = hash[(x + y) % (hash.len() as int)];
    seq![
        ((byte + x) % 256) as u8,
        ((byte - y) % 256) as u8,
        byte ^ (((x + y) % 256) as u8),
        255u8,
    ]
}

/// The bytes of the fingerprint picture for a digest `hash`.
pub open spec fn fingerprint_pixels(hash: Seq<u8>) -> Seq<u8> {
    Seq::new(
        (FINGERPRINT_SIDE * FINGERPRINT_SIDE * 4) as nat,
        |i: int| fingerprint_pixel(hash, (i / 4) % 256, i / 1024)[i % 4],
    )
}

/// Where the byte `channel` of the pixel in column `x` and row `y` stands
/// among the bytes of the fingerprint picture.
proof fn lemma_pixel_position(x: int, y: int, channel: int)
    requires
        0 <= x < 256,
        0 <= y < 256,
        0 <= channel < 4,
    ensures
        ((y * 1024 + x * 4 + channel) / 4) % 256 == x,
        (y * 1024 + x * 4 + channel) / 1024 == y,
        (y * 1024 + x * 4 + channel) % 4 == channel,
        0 <= y * 1024 + x * 4 + channel < 256 * 256 * 4,
{
}

/// Computes the red, green and blue bytes of one pixel of the fingerprint.
fn paint_pixel(hash: &[u8], x: u32, y: u32) -> (colors: (u8, u8, u8))
    requires
        hash@.len() > 0,
        x < FINGERPRINT_SIDE,
        y < FINGERPRINT_SIDE,
    ensures
        fingerprint_pixel(hash@, x as int, y as int) == seq![colors.0, colors.1, colors.2, 255u8],
{
    let byte: u8 = hash[(x as usize + y as usize) % hash.len()];
    let column: u8 = x as u8;
    let row: u8 = y as u8;
    let red: u8 = byte.wrapping_add(column);
    let green: u8 = byte.wrapping_sub(row);
    let blue: u8 = byte ^ column.wrapping_add(row);
    assert(fingerprint_pixel(hash@, x as int, y as int) =~= seq![red, green, blue, 255u8]);
    (red, green, blue)
}

/// Paints the fingerprint picture of a digest.
pub fn paint_fingerprint(hash: &[u8]) -> (picture: Bitmap)
    requires
        hash@.len() > 0,
    ensures
        picture.width == FINGERPRINT_SIDE,
        picture.height == FINGERPRINT_SIDE,
        picture.format == PixelFormat::Rgba,
        picture.pixels@ == fingerprint_pixels(hash@),
        picture.well_formed(),
{
    let mut pixels: Vec<u8> = Vec::new();
    let mut y: u32 = 0;
    while y < FINGERPRINT_SIDE
        invariant
            y <= FINGERPRINT_SIDE,
            hash@.len() > 0,
            pixels@.len() == y * 1024,
            forall|i: int| 0 <= i < pixels@.len() ==> pixels@[i] == fingerprint_pixels(hash@)[i],
        decreases FINGERPRINT_SIDE - y,
    {
        let mut x: u32 = 0;
        while x < FINGERPRINT_SIDE
            invariant
                x <= FINGERPRINT_SIDE,
                y < FINGERPRINT_SIDE,
                hash@.len() > 0,
                pixels@.len() == y * 1024 + x * 4,
                forall|i: int| 0 <= i < pixels@.len() ==> pixels@[i] == fingerprint_pixels(hash@)[i],
            decreases FINGERPRINT_SIDE - x,
        {
            let (red, green, blue) = paint_pixel(hash, x, y);
            let ghost before = pixels@;
            pixels.push(red);
            pixels.push(green);
            pixels.push(blue);
            pixels.push(255);
            proof {
                let pixel = fingerprint_pixel(hash@, x as int, y as int);
                let start = y * 1024 + x * 4;
                assert forall|i: int| 0 <= i < pixels@.len() implies pixels@[i]
                    == fingerprint_pixels(hash@)[i] by {
                    if i >= start {
                        lemma_pixel_position(x as int, y as int, i - start);
                        assert(pixels@[i] == pixel[i - start]);
                    } else {
                        assert(pixels@[i] == before[i]);
                    }
                }
            }
            x = x + 1;
        }
        y = y + 1;
    }
    assert(pixels@ =~= fingerprint_pixels(hash@));
    Bitmap { width: FINGERPRINT_SIDE, height: FINGERPRINT_SIDE, format: PixelFormat::Rgba, pixels }
}

/// The fingerprint picture of an identifier: the picture painted from the
/// SHA-256 digest of the identifier's UTF-8 bytes.
pub fn generate_visual_hash(id: &str) -> (picture: Bitmap)
    ensures
        picture.width == FINGERPRINT_SIDE,
        picture.height == FINGERPRINT_SIDE,
        picture.format == PixelFormat::Rgba,
        picture.pixels@ == fingerprint_pixels(sha256_digest(id.spec_bytes())),
        sha256_digest(id.spec_bytes()).len() == 32,
        picture.well_formed(),
{
    let hash = sha256(id.as_bytes());
    paint_fingerprint(hash.as_slice())
}

/// What becomes of an encoder's result: the file, or an internal error.
pub open spec fn file_or_internal(file: Option<Seq<u8>>, got: Result<Vec<u8>, ApiError>) -> bool {
    match file {
        Some(bytes) => got matches Ok(written) && written@ == bytes,
        None => got matches Err(error) && error@ is Internal,
    }
}

/// Whether `text` is the description that some error of the PNG encoder
/// gives of itself.
pub open spec fn describes_image_error(text: String) -> bool {
    exists|cause: image::ImageError| #[trigger]
        to_string_from_display_ensures::<image::ImageError>(&cause, text)
}

/// Whether `text` is the description that some error of the QR encoder
/// gives of itself.
pub open spec fn describes_qr_error(text: String) -> bool {
    exists|cause: qrcode::types::QrError| #[trigger]
        to_string_from_display_ensures::<qrcode::types::QrError>(&cause, text)
}

/// The PNG file of a picture. An error of the encoder is internal and
/// carries the encoder's description.
pub fn encode_png(picture: &Bitmap) -> (file: Result<Vec<u8>, ApiError>)
    requires
        picture.well_formed(),
    ensures
        file_or_internal(
            png_encoding(
                picture.pixels@,
                picture.width,
                picture.height,
                bytes_per_pixel(picture.format),
            ),
            file,
        ),
        file matches Err(ApiError::Internal(text)) ==> describes_image_error(text),
{
    match write_png(picture) {
        Ok(bytes) => Ok(bytes),
        Err(error) => Err(ApiError::Internal(error.to_string())),
    }
}

/// The fingerprint of an identifier as a PNG file.
pub fn visual_hash(id: &str) -> (file: Result<Vec<u8>, ApiError>)
    ensures
        file_or_internal(
            png_encoding(
                fingerprint_pixels(sha256_digest(id.spec_bytes())),
                FINGERPRINT_SIDE,
                FINGERPRINT_SIDE,
                4,
            ),
            file,
        ),
        sha256_digest(id.spec_bytes()).len() == 32,
        file matches Err(ApiError::Internal(text)) ==> describes_image_error(text),
{
    let picture = generate_visual_hash(id);
    encode_png(&picture)
}

/// The PNG file of the QR code of `data`, where it has one.
pub open spec fn qr_file(data: Seq<u8>) -> Option<Seq<u8>> {
    match qr_rendering(data) {
        Some((width, height, pixels)) => png_encoding(pixels, width, height, 1),
        None => None,
    }
}

/// The QR code of a destination as a PNG file. A destination that does not
/// fit in a QR code is an internal error that carries the description of
/// the QR encoder's error, and an error of the PNG encoder is one that
/// carries the description of that error.
pub fn qr_code(destination: &str) -> (file: Result<Vec<u8>, ApiError>)
    ensures
        file_or_internal(qr_file(destination.spec_bytes()), file),
        file matches Err(ApiError::Internal(text)) ==> {
            if qr_rendering(destination.spec_bytes()) is None {
                describes_qr_error(text)
            } else {
                describes_image_error(text)
            }
        },
{
    match render_qr(destination.as_bytes()) {
        Ok(picture) => encode_png(&picture),
        Err(error) => Err(ApiError::Internal(error.to_string())),
    }
}

} // verus!
