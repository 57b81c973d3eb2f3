//! QR codes as PNG images.

use vstd::prelude::*;

verus! {

/// A gray image: its pixels, row by row.
#[derive(Debug, PartialEq, Eq)]
pub struct GrayImage {
    pub width: u32,
    pub height: u32,
    pub pixels: Vec<u8>,
}

/// A gray image, by the values of its pixels.
pub struct GrayView {
    pub width: u32,
    pub height: u32,
    pub pixels: Seq<u8>,
}

impl GrayImage {
    /// The image, by the values of its pixels.
    pub open spec fn view(&self) -> GrayView {
        GrayView { width: self.width, height: self.height, pixels: self.pixels@ }
    }
}

/// The image that `qrcode` draws of a text in the given shades, at least `side` pixels wide;
/// nothing where the text is too long for a code.
pub uninterp spec fn drawn_code(
    content: Seq<char>,
    dark: u8,
    light: u8,
    side: u32,
) -> Option<GrayView>;

/// The PNG that `image` makes of pixels of three bytes; nothing where it cannot make one.
pub uninterp spec fn encoded_png(width: u32, height: u32, pixels: Seq<u8>) -> Option<Seq<u8>>;

/// The bytes that every PNG begins with.
pub open spec fn png_signature() -> Seq<u8> {
    seq![137u8, 80u8, 78u8, 71u8, 13u8, 10u8, 26u8, 10u8]
}

/// `qrcode::QrCode::new` on the bytes of a text, drawn by its `render` with a quiet zone.
/// The image depends on the arguments alone. It is square and not much larger than asked
/// for, it has a byte for every pixel, and every pixel is dark or light.
#[verifier::external_body]
fn draw_code(content: &str, dark: u8, light: u8, side: u32) -> (r: Option<GrayImage>)
    requires
        0 < side <= 4096,
    ensures
        match r {
            Some(image) => drawn_code(content@, dark, light, side) == Some(image.view()),
            None => drawn_code(content@, dark, light, side) is None,
        },
        r matches Some(image) ==> image.width == image.height && side <= image.width <= side + 184
            && image.pixels@.len() == image.width * image.height && forall|i: int|
            0 <= i < image.pixels@.len() ==> #[trigger] image.pixels@[i] == dark || image.pixels@[i]
                == light,
{
    let code = qrcode::QrCode::new(content.as_bytes()).ok()?;
    let luma = code.render::<image::Luma<u8>>()
        .dark_color(image::Luma([dark]))
        .light_color(image::Luma([light]))
        .min_dimensions(side, side)
        .quiet_zone(true)
        .build();
    Some(GrayImage { width: luma.width(), height: luma.height(), pixels: luma.into_raw() })
}

/// `image::RgbImage::from_raw` and its `write_to` as PNG. The bytes depend on the arguments
/// alone, and begin with the signature of the format.
#[verifier::external_body]
fn encode_png(width: u32, height: u32, pixels: Vec<u8>) -> (r: Option<Vec<u8>>)
    requires
        pixels@.len() == 3 * (width * height),
    ensures
        match r {
            Some(bytes) => encoded_png(width, height, pixels@) == Some(bytes@),
            None => encoded_png(width, height, pixels@) is None,
        },
        r matches Some(bytes) ==> bytes@.len() > 8 && bytes@.take(8) == png_signature(),
{
    let rgb = image::RgbImage::from_raw(width, height, pixels)?;
    let mut bytes = Vec::new();
    rgb.write_to(&mut std::io::Cursor::new(&mut bytes), image::ImageFormat::Png).ok()?;
    Some(bytes)
}

/// Every gray value, three times over.
pub open spec fn tripled(pixels: Seq<u8>) -> Seq<u8> {
    Seq::new(3 * pixels.len(), |i: int| pixels[i / 3])
}

/// The pixels of a gray image as pixels of three equal bytes.
pub fn gray_to_rgb(pixels: &Vec<u8>) -> (r: Vec<u8>)
    ensures
        r@ == tripled(pixels@),
{
    let mut out: Vec<u8> = Vec::new();
    let mut i: usize = 0;
    while i < pixels.len()
        invariant
            i <= pixels.len(),
            out@.len() == 3 * i,
            forall|k: int| 0 <= k < out@.len() ==> #[trigger] out@[k] == pixels@[k / 3],
        decreases pixels.len() - i,
    {
        let value: u8 = pixels[i];
        out.push(value);
        out.push(value);
        out.push(value);
        i = i + 1;
    }
    assert(out@ =~= tripled(pixels@));
    out
}

/// The PNG of the QR code of a text: black on white, at least 160 pixels wide.
pub open spec fn qr_png(content: Seq<char>) -> Option<Seq<u8>> {
    match drawn_code(content, 0, 255, 160) {
        Some(image) => encoded_png(image.width, image.height, tripled(image.pixels)),
        None => None,
    }
}

/// The PNG of the QR code of a link; nothing where the link is too long for one.
pub fn qr_png_for_url(url: &str) -> (r: Option<Vec<u8>>)
    ensures
        match r {
            Some(bytes) => qr_png(url@) == Some(bytes@) && bytes@.len() > 8 && bytes@.take(8)
                == png_signature(),
            None => qr_png(url@) is None,
        },
{
    match draw_code(url, 0, 255, 160) {
        None => None,
        Some(image) => {
            let pixels: Vec<u8> = gray_to_rgb(&image.pixels);
            encode_png(image.width, image.height, pixels)
        },
    }
}

} // verus!
