//! Encoding of copied images: raw RGBA bytes to PNG, and PNG to Base64 text.
use vstd::prelude::*;

use base64::Engine;
use image::{DynamicImage, GenericImage, ImageFormat};

verus! {

#[verifier::external_type_specification]
#[verifier::external_body]
pub struct ExDynamicImage(DynamicImage);

/// Whether an image stores 8-bit RGBA samples.
pub uninterp spec fn is_rgba8(img: DynamicImage) -> bool;

/// The samples an image holds, row after row, four bytes (R, G, B, A) per pixel.
pub uninterp spec fn rgba8_samples(img: DynamicImage) -> Seq<u8>;

/// Width and height an image was made with.
pub uninterp spec fn image_size(img: DynamicImage) -> (u32, u32);

/// The PNG file `image` writes for 8-bit RGBA samples of the given size.
pub uninterp spec fn png_encoding(samples: Seq<u8>, width: u32, height: u32) -> Seq<u8>;

/// Calls `image::DynamicImage::new_rgba8`: an RGBA image of the given size,
/// all samples zero. Its buffer length is checked to fit a `usize`
/// (`ImageBuffer::new` panics otherwise).
#[verifier::external_body]
fn new_rgba8_image(width: u32, height: u32) -> (img: DynamicImage)
    requires
        4 * (width as int) * (height as int) <= usize::MAX,
    ensures
        is_rgba8(img),
        image_size(img) == (width, height),
        rgba8_samples(img) == Seq::new((4 * (width as int) * (height as int)) as nat, |i: int| 0u8),
{
    DynamicImage::new_rgba8(width, height)
}

/// Calls `GenericImage::put_pixel` on an RGBA image: the four samples of
/// pixel (x, y), at offset `4 * (y * width + x)`, become the given bytes. It
/// panics out of bounds, which `requires` rules out.
#[verifier::external_body]
fn put_rgba8_pixel(img: &mut DynamicImage, x: u32, y: u32, px: [u8; 4])
    requires
        is_rgba8(*old(img)),
        x < image_size(*old(img)).0,
        y < image_size(*old(img)).1,
    ensures
        is_rgba8(*final(img)),
        image_size(*final(img)) == image_size(*old(img)),
        ({
            let i = 4 * ((y as int) * (image_size(*old(img)).0 as int) + (x as int));
            rgba8_samples(*final(img)) == rgba8_samples(*old(img)).update(i, px@[0]).update(
                i + 1,
                px@[1],
            ).update(i + 2, px@[2]).update(i + 3, px@[3])
        }),
{
    img.put_pixel(x, y, image::Rgba::<u8>(px))
}

/// Calls `DynamicImage::write_to` with the PNG format into a byte vector.
/// The PNG encoder refuses a zero width or height; for an RGBA image of any
/// other size its only other failures are write errors, and writing into a
/// byte vector does not fail, so it succeeds. The bytes it writes are named,
/// not described.
#[verifier::external_body]
fn encode_png(img: &DynamicImage) -> (r: Option<Vec<u8>>)
    requires
        is_rgba8(*img),
    ensures
        r matches Some(v) ==> v@ == png_encoding(
            rgba8_samples(*img),
            image_size(*img).0,
            image_size(*img).1,
        ),
        r is Some <==> (image_size(*img).0 > 0 && image_size(*img).1 > 0),
{
    let mut out: Vec<u8> = Vec::new();
    match img.write_to(&mut std::io::Cursor::new(&mut out), ImageFormat::Png) {
        Ok(()) => Some(out),
        Err(_) => None,
    }
}

/// PNG file of raw RGBA bytes (four per pixel, row after row). `None` for a
/// zero width or height, which the encoder refuses.
pub fn raw_bytes_to_png(bytes: Vec<u8>, width: usize, height: usize) -> (r: Option<Vec<u8>>)
    requires
        bytes@.len() == width * height * 4,
        width <= u32::MAX,
        height <= u32::MAX,
    ensures
        r matches Some(v) ==> v@ == png_encoding(bytes@, width as u32, height as u32),
        r is Some <==> (width > 0 && height > 0),
{
    let len = bytes.len();
    assert(4 * width * height == width * height * 4) by (nonlinear_arith);
    assert(4 * ((width as u32) as int) * ((height as u32) as int) <= usize::MAX) by (nonlinear_arith)
        requires
            width <= u32::MAX,
            height <= u32::MAX,
            4 * width * height == bytes@.len(),
            bytes@.len() <= usize::MAX,
    ;
    let mut image = new_rgba8_image(width as u32, height as u32);
    let ghost zeros = rgba8_samples(image);
    let mut i: usize = 0;
    let mut y: usize = 0;
    while y < height
        invariant
            y <= height,
            bytes@.len() == width * height * 4,
            width <= u32::MAX,
            height <= u32::MAX,
            i == 4 * width * y,
            4 * width * height == bytes@.len(),
            bytes@.len() <= usize::MAX,
            is_rgba8(image),
            image_size(image) == (width as u32, height as u32),
            rgba8_samples(image).len() == bytes@.len(),
            forall|j: int| 0 <= j < i ==> rgba8_samples(image)[j] == bytes@[j],
            forall|j: int| i <= j < bytes@.len() ==> rgba8_samples(image)[j] == 0u8,
        decreases height - y,
    {
        assert(4 * width * y + 4 * width <= 4 * width * height) by (nonlinear_arith)
            requires
                y < height,
        ;
        let mut x: usize = 0;
        while x < width
            invariant
                x <= width,
                y < height,
                bytes@.len() == width * height * 4,
                width <= u32::MAX,
                height <= u32::MAX,
                i == 4 * width * y + 4 * x,
                4 * width * y + 4 * width <= 4 * width * height,
                4 * width * height == bytes@.len(),
                bytes@.len() <= usize::MAX,
                is_rgba8(image),
                image_size(image) == (width as u32, height as u32),
                rgba8_samples(image).len() == bytes@.len(),
                forall|j: int| 0 <= j < i ==> rgba8_samples(image)[j] == bytes@[j],
                forall|j: int| i <= j < bytes@.len() ==> rgba8_samples(image)[j] == 0u8,
            decreases width - x,
        {
            assert(4 * ((y as int) * (width as int) + (x as int)) == i) by (nonlinear_arith)
                requires
                    i == 4 * width * y + 4 * x,
            ;
            let px = [bytes[i], bytes[i + 1], bytes[i + 2], bytes[i + 3]];
            put_rgba8_pixel(&mut image, x as u32, y as u32, px);
            i = i + 4;
            x = x + 1;
        }
        assert(4 * width * y + 4 * width == 4 * width * (y + 1)) by (nonlinear_arith);
        y = y + 1;
    }
    proof {
        assert(4 * width * y == 4 * width * height);
        assert(rgba8_samples(image) =~= bytes@);
    }
    encode_png(&image)
}


/// The Base64 symbol of a six-bit value (standard alphabet).
pub open spec fn b64_symbol(v: int) -> u8 {
    if v < 26 {
        (65 + v) as u8
    } else if v < 52 {
        (97 + (v - 26)) as u8
    } else if v < 62 {
        (48 + (v - 52)) as u8
    } else if v == 62 {
        43u8
    } else {
        47u8
    }
}

/// Standard Base64 (RFC 4648, with `=` padding) of a byte sequence.
pub open spec fn base64_standard(s: Seq<u8>) -> Seq<u8>
    decreases s.len(),
{
    if s.len() == 0 {
        Seq::empty()
    } else if s.len() == 1 {
        seq![b64_symbol((s[0] as int) / 4), b64_symbol(((s[0] as int) % 4) * 16), 61u8, 61u8]
    } else if s.len() == 2 {
        seq![
            b64_symbol((s[0] as int) / 4),
            b64_symbol(((s[0] as int) % 4) * 16 + (s[1] as int) / 16),
            b64_symbol(((s[1] as int) % 16) * 4),
            61u8,
        ]
    } else {
        seq![
            b64_symbol((s[0] as int) / 4),
            b64_symbol(((s[0] as int) % 4) * 16 + (s[1] as int) / 16),
            b64_symbol(((s[1] as int) % 16) * 4 + (s[2] as int) / 64),
            b64_symbol((s[2] as int) % 64),
        ] + base64_standard(s.skip(3))
    }
}

/// Length of the padded Base64 text of `n` bytes.
pub open spec fn base64_len(n: nat) -> nat {
    ((n + 2) / 3) * 4
}

/// The Base64 text of `n` bytes is `4 * ceil(n / 3)` symbols long.
pub proof fn lemma_base64_len(s: Seq<u8>)
    ensures
        base64_standard(s).len() == base64_len(s.len()),
    decreases s.len(),
{
    if s.len() > 2 {
        lemma_base64_len(s.skip(3));
    }
}

/// Calls `base64::engine::general_purpose::STANDARD.encode_slice`, which
/// writes the padded standard Base64 text of `input` at the front of `output`
/// and returns its length; it fails only when `output` is too short, which
/// `requires` rules out, and leaves the rest of `output` as it was.
#[verifier::external_body]
fn encode_base64_into(input: &[u8], output: &mut Vec<u8>) -> (r: Option<usize>)
    requires
        old(output)@.len() >= base64_len(input@.len()),
    ensures
        r == Some(base64_len(input@.len()) as usize),
        final(output)@.len() == old(output)@.len(),
        final(output)@.take(base64_len(input@.len()) as int) == base64_standard(input@),
        final(output)@.skip(base64_len(input@.len()) as int) == old(output)@.skip(
            base64_len(input@.len()) as int,
        ),
{
    base64::prelude::BASE64_STANDARD.encode_slice(input, output.as_mut_slice()).ok()
}

/// Base64 text of the PNG file of raw RGBA bytes (see `raw_bytes_to_png`).
/// `None` for a zero width or height, or when the PNG is too large for the
/// size of the text buffer to be computed.
pub fn raw_bytes_to_base64_png(bytes: Vec<u8>, width: usize, height: usize) -> (r: Option<Vec<u8>>)
    requires
        bytes@.len() == width * height * 4,
        width <= u32::MAX,
        height <= u32::MAX,
    ensures
        r matches Some(v) ==> v@ == base64_standard(png_encoding(bytes@, width as u32, height as u32)),
        r is Some <==> (width > 0 && height > 0 && png_encoding(bytes@, width as u32, height as u32).len()
            <= (usize::MAX - 4) / 4),
{
    let png = match raw_bytes_to_png(bytes, width, height) {
        Some(png) => png,
        None => {
            return None;
        },
    };
    let n = png.len();
    if n > (usize::MAX - 4) / 4 {
        return None;
    }
    let mut output: Vec<u8> = Vec::new();
    output.resize(n * 4 / 3 + 4, 0);
    assert(n * 4 / 3 + 4 >= ((n + 2) / 3) * 4) by (nonlinear_arith);
    let written = match encode_base64_into(png.as_slice(), &mut output) {
        Some(w) => w,
        None => {
            return None;
        },
    };
    output.truncate(written);
    proof {
        assert(output@ =~= base64_standard(png@));
    }
    Some(output)
}

} // verus!
