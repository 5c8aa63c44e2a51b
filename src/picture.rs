use vstd::prelude::*;
use crate::error::CatError;

verus! {

#[verifier::external_type_specification]
#[verifier::external_body]
pub struct ExImageError(image::ImageError);

/// What `image::load_from_memory` makes of a byte string, as width, height and
/// 8-bit RGBA samples, or `None` where it fails.
pub uninterp spec fn decoded_of(bytes: Seq<u8>) -> Option<(u32, u32, Seq<u8>)>;

/// The HTML document that `artem::convert` renders, in full-document mode with
/// colour, from an RGBA picture of the given size.
pub uninterp spec fn html_art_of(width: u32, height: u32, rgba: Seq<u8>) -> Seq<char>;

/// Relies on `image::load_from_memory`, which guesses the format and decodes,
/// and on `DynamicImage::to_rgba8`, which allocates four samples per pixel.
#[verifier::external_body]
fn load_rgba(bytes: &[u8]) -> (r: Result<(u32, u32, Vec<u8>), image::ImageError>)
    ensures
        match r {
            Ok((w, h, px)) => decoded_of(bytes@) == Some((w, h, px@)) && px@.len() == 4 * w * h,
            Err(_) => decoded_of(bytes@) is None,
        },
{
    match image::load_from_memory(bytes) {
        Ok(img) => {
            let rgba = img.to_rgba8();
            Ok((rgba.width(), rgba.height(), rgba.into_raw()))
        },
        Err(e) => Err(e),
    }
}

/// Relies on `artem::convert` with the `HtmlFile(true, true)` target, which
/// always starts its output with an HTML head. It divides by the width, so a
/// picture without columns or rows is kept out.
#[verifier::external_body]
fn artem_html(width: u32, height: u32, rgba: Vec<u8>) -> (r: String)
    requires
        width >= 1,
        height >= 1,
        rgba@.len() == 4 * width * height,
    ensures
        r@ == html_art_of(width, height, rgba@),
        r@.len() > 0,
{
    let buffer = image::RgbaImage::from_raw(width, height, rgba).expect("four samples per pixel");
    artem::convert(
        image::DynamicImage::ImageRgba8(buffer),
        artem::options::OptionBuilder::new()
            .target(artem::options::TargetType::HtmlFile(true, true))
            .build(),
    )
}

/// A decoded picture: its size and its pixels, four 8-bit samples (red,
/// green, blue, alpha) per pixel, row by row.
#[derive(Debug)]
pub struct DecodedImage {
    pub width: u32,
    pub height: u32,
    pub rgba: Vec<u8>,
}

impl DecodedImage {
    /// The samples fill the grid exactly.
    pub open spec fn wf(&self) -> bool {
        self.rgba@.len() == 4 * self.width * self.height
    }

    /// The picture has at least one column and one row.
    pub open spec fn has_area(&self) -> bool {
        self.width >= 1 && self.height >= 1
    }
}

/// The art that a picture converts to.
pub open spec fn art_of(img: DecodedImage) -> Seq<char> {
    html_art_of(img.width, img.height, img.rgba@)
}

/// What serving a picture given as bytes comes to: its art, or an error where
/// the bytes do not decode or the picture has no area.
pub open spec fn render_spec(bytes: Seq<u8>) -> Result<Seq<char>, ()> {
    match decoded_of(bytes) {
        Some((w, h, px)) => if w >= 1 && h >= 1 {
            Ok(html_art_of(w, h, px))
        } else {
            Err(())
        },
        None => Err(()),
    }
}

/// Decodes a picture in any format that the decoder recognises.
pub fn decode_image(bytes: &[u8]) -> (r: Result<DecodedImage, CatError>)
    ensures
        match r {
            Ok(img) => img.wf() && decoded_of(bytes@) == Some((img.width, img.height, img.rgba@)),
            Err(e) => decoded_of(bytes@) is None && e is Decode,
        },
{
    match load_rgba(bytes) {
        Ok((width, height, rgba)) => Ok(DecodedImage { width, height, rgba }),
        Err(_) => Err(CatError::Decode { detail: "the bytes are not a picture in a known format".to_owned() }),
    }
}

/// Converts a picture into an HTML document of ASCII art.
pub fn convert_to_html(img: DecodedImage) -> (r: String)
    requires
        img.wf(),
        img.has_area(),
    ensures
        r@ == art_of(img),
        r@.len() > 0,
{
    artem_html(img.width, img.height, img.rgba)
}

/// Decodes a picture and converts it, failing with a decode error where the
/// bytes are no picture or the picture has no area.
pub fn render_picture(bytes: &[u8]) -> (r: Result<String, CatError>)
    ensures
        match r {
            Ok(art) => render_spec(bytes@) == Ok::<Seq<char>, ()>(art@) && art@.len() > 0,
            Err(e) => render_spec(bytes@) is Err && e is Decode,
        },
{
    let img = match decode_image(bytes) {
        Ok(img) => img,
        Err(e) => return Err(e),
    };
    if img.width == 0 || img.height == 0 {
        return Err(CatError::Decode { detail: "the picture has no pixels".to_owned() });
    }
    Ok(convert_to_html(img))
}

/// Conversion is a function of the picture: the same size and pixels give the
/// same art.
pub proof fn lemma_conversion_deterministic(a: DecodedImage, b: DecodedImage)
    requires
        a.width == b.width,
        a.height == b.height,
        a.rgba@ == b.rgba@,
    ensures
        art_of(a) == art_of(b),
{
}

} // verus!
