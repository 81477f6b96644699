use base64::Engine;
use std::io::Cursor;
use vstd::prelude::*;

verus! {

/// The PNG file that the image codec writes for an RGB image of these dimensions and samples.
pub uninterp spec fn png_of(width: u32, height: u32, samples: Seq<u8>) -> Seq<u8>;

/// The standard base64 alphabet: `A`-`Z`, `a`-`z`, `0`-`9`, `+`, `/`.
pub open spec fn base64_alphabet() -> Seq<char> {
    seq![
        'A', 'B', 'C', 'D', 'E', 'F', 'G', 'H', 'I', 'J', 'K', 'L', 'M', 'N', 'O', 'P',
        'Q', 'R', 'S', 'T', 'U', 'V', 'W', 'X', 'Y', 'Z', 'a', 'b', 'c', 'd', 'e', 'f',
        'g', 'h', 'i', 'j', 'k', 'l', 'm', 'n', 'o', 'p', 'q', 'r', 's', 't', 'u', 'v',
        'w', 'x', 'y', 'z', '0', '1', '2', '3', '4', '5', '6', '7', '8', '9', '+', '/',
    ]
}

/// One group of one to three bytes as four characters, padded with `=`.
pub open spec fn base64_group(b: Seq<u8>) -> Seq<char> {
    let b1: int = if b.len() > 1 { b[1] as int } else { 0 };
    let b2: int = if b.len() > 2 { b[2] as int } else { 0 };
    let n: int = b[0] as int * 65536 + b1 * 256 + b2;
    let a = base64_alphabet();
    let c0 = a[(n / 262144) % 64];
    let c1 = a[(n / 4096) % 64];
    let c2 = if b.len() > 1 { a[(n / 64) % 64] } else { '=' };
    let c3 = if b.len() > 2 { a[n % 64] } else { '=' };
    seq![c0, c1, c2, c3]
}

/// The padded standard base64 text of a byte sequence.
pub open spec fn base64_text(bytes: Seq<u8>) -> Seq<char>
    decreases bytes.len(),
{
    if bytes.len() == 0 {
        Seq::empty()
    } else if bytes.len() <= 3 {
        base64_group(bytes)
    } else {
        base64_group(bytes.take(3)) + base64_text(bytes.skip(3))
    }
}

/// A rendered page: `width` x `height` RGB pixels, row-major, top to bottom.
pub struct PixelBuffer {
    pub width: u32,
    pub height: u32,
    pub samples: Vec<u8>,
}

impl PixelBuffer {
    pub open spec fn well_formed(&self) -> bool {
        &&& self.width > 0
        &&& self.height > 0
        &&& self.samples@.len() == self.width as int * self.height as int * 3
    }
}

/// A page as a PNG file, and that file as base64 text.
pub struct EncodedImage {
    pub png: Vec<u8>,
    pub base64: String,
}

#[derive(PartialEq, Eq, Debug, Clone, Copy)]
pub enum EncodeError {
    EmptyImage,
    LengthMismatch,
}

/// Relies on image's `RgbImage::from_raw` and `DynamicImage::write_to` with
/// `ImageFormat::Png`: the PNG written depends on the dimensions and samples alone.
/// The PNG encoder asserts that the sample length is exactly width * height * 3, and
/// fails otherwise only on a zero width or height (writing to memory cannot fail).
#[verifier::external_body]
fn png_bytes(width: u32, height: u32, samples: &Vec<u8>) -> (r: Option<Vec<u8>>)
    requires
        samples@.len() == width as int * height as int * 3,
    ensures
        r matches Some(b) ==> b@ == png_of(width, height, samples@),
        width > 0 && height > 0 ==> r is Some,
{
    let img = image::RgbImage::from_raw(width, height, samples.clone())?;
    let mut out = Cursor::new(Vec::new());
    image::DynamicImage::ImageRgb8(img).write_to(&mut out, image::ImageFormat::Png).ok()?;
    Some(out.into_inner())
}

/// Relies on base64's `general_purpose::STANDARD.encode`: the standard alphabet,
/// with `=` padding.
#[verifier::external_body]
fn to_base64(bytes: &Vec<u8>) -> (r: String)
    ensures
        r@ == base64_text(bytes@),
{
    base64::engine::general_purpose::STANDARD.encode(bytes)
}

/// Serializes a pixel buffer as PNG and as base64 text of that PNG.
pub fn encode(buf: &PixelBuffer) -> (r: Result<EncodedImage, EncodeError>)
    ensures
        (buf.width == 0 || buf.height == 0) <==> r == Err::<EncodedImage, EncodeError>(
            EncodeError::EmptyImage,
        ),
        (buf.width > 0 && buf.height > 0 && !buf.well_formed()) <==> r == Err::<
            EncodedImage,
            EncodeError,
        >(EncodeError::LengthMismatch),
        buf.well_formed() ==> r is Ok,
        r matches Ok(e) ==> buf.well_formed() && e.png@ == png_of(buf.width, buf.height, buf.samples@)
            && e.base64@ == base64_text(e.png@),
{
    if buf.width == 0 || buf.height == 0 {
        return Err(EncodeError::EmptyImage);
    }
    let w: u128 = buf.width as u128;
    let h: u128 = buf.height as u128;
    assert(w * h <= 0xffff_ffffu128 * 0xffff_ffffu128) by (nonlinear_arith)
        requires
            w <= 0xffff_ffffu128,
            h <= 0xffff_ffffu128,
    ;
    let expected: u128 = w * h * 3;
    if buf.samples.len() as u128 != expected {
        return Err(EncodeError::LengthMismatch);
    }
    let png = png_bytes(buf.width, buf.height, &buf.samples).unwrap();
    let base64 = to_base64(&png);
    Ok(EncodedImage { png, base64 })
}

} // verus!
