use vstd::prelude::*;

verus! {

/// The payload of an `Option` known to be `Some`.
pub open spec fn some_of<T>(o: Option<T>) -> T
    recommends
        o is Some,
{
    o->0
}

/// A decoded image: `width` × `height` RGBA8 samples, four bytes per pixel,
/// rows top to bottom.
pub struct PixelBuffer {
    pub width: u32,
    pub height: u32,
    pub pixels: Vec<u8>,
}

impl PixelBuffer {
    pub open spec fn wf(self) -> bool {
        self.pixels@.len() == 4 * (self.width as int) * (self.height as int)
    }
}

/// What decoding yields on a byte stream: `None` when the bytes are not a
/// readable image, otherwise the width, height and RGBA8 samples.
pub uninterp spec fn decoded_image(data: Seq<u8>) -> Option<(u32, u32, Seq<u8>)>;

/// Relies on `image::load_from_memory` and `DynamicImage::to_rgba8`:
/// decoding is a function of the byte stream alone, and the RGBA8 buffer of
/// a `w × h` image holds exactly `4 * w * h` samples.
#[verifier::external_body]
pub(crate) fn decode_pixels(data: &Vec<u8>) -> (r: Result<PixelBuffer, String>)
    ensures
        r is Ok <==> decoded_image(data@) is Some,
        r is Ok ==> {
            let img = some_of(decoded_image(data@));
            &&& r->Ok_0.width == img.0
            &&& r->Ok_0.height == img.1
            &&& r->Ok_0.pixels@ == img.2
            &&& r->Ok_0.wf()
        },
{
    match image::load_from_memory(data) {
        Ok(img) => {
            let rgba = img.to_rgba8();
            let (width, height) = (rgba.width(), rgba.height());
            Ok(PixelBuffer { width, height, pixels: rgba.into_raw() })
        },
        Err(e) => Err(e.to_string()),
    }
}

/// What JPEG encoding yields on an RGBA8 buffer at a given quality: `None`
/// when the encoder rejects the input (a zero or over-wide dimension).
pub uninterp spec fn jpeg_encoding(pixels: Seq<u8>, width: u32, height: u32, quality: u8) -> Option<
    Seq<u8>,
>;

/// Relies on `image::codecs::jpeg::JpegEncoder::new_with_quality` and
/// `encode_image`: the output depends on the pixel samples, the dimensions
/// and the quality alone (the encoder clamps quality into `1..=100` itself,
/// and ignores the alpha channel).
#[verifier::external_body]
pub(crate) fn encode_jpeg(buf: &PixelBuffer, quality: u8) -> (r: Result<Vec<u8>, String>)
    requires
        buf.wf(),
    ensures
        r is Ok <==> jpeg_encoding(buf.pixels@, buf.width, buf.height, quality) is Some,
        r is Ok ==> r->Ok_0@ == some_of(jpeg_encoding(buf.pixels@, buf.width, buf.height, quality)),
{
    let img = match image::RgbaImage::from_raw(buf.width, buf.height, buf.pixels.clone()) {
        Some(i) => i,
        None => return Err("pixel buffer does not match its dimensions".to_string()),
    };
    let mut writer = std::io::Cursor::new(Vec::new());
    let mut encoder = image::codecs::jpeg::JpegEncoder::new_with_quality(&mut writer, quality);
    match encoder.encode_image(&img) {
        Ok(()) => Ok(writer.into_inner()),
        Err(e) => Err(e.to_string()),
    }
}

/// The transparency chunk passed to the PNG encoder, viewed as bytes.
pub open spec fn opt_bytes(v: Option<&Vec<u8>>) -> Option<Seq<u8>> {
    match v {
        Some(b) => Some(b@),
        None => None,
    }
}

/// What building an 8-bit indexed PNG yields from a palette chunk, an
/// optional transparency chunk, one palette index per pixel, and the
/// dimensions; `None` when the encoder rejects the combination.
pub uninterp spec fn indexed_png_encoding(
    plte: Seq<u8>,
    trns: Option<Seq<u8>>,
    indices: Seq<u8>,
    width: u32,
    height: u32,
) -> Option<Seq<u8>>;

/// Relies on `png::Encoder` (`set_color(Indexed)`, `set_depth(Eight)`,
/// `set_palette`, `set_trns`, `write_header`, `write_image_data`): the byte
/// stream it writes is a function of these inputs alone.
#[verifier::external_body]
pub(crate) fn encode_indexed_png(
    plte: &Vec<u8>,
    trns: Option<&Vec<u8>>,
    indices: &Vec<u8>,
    width: u32,
    height: u32,
) -> (r: Result<Vec<u8>, String>)
    ensures
        r is Ok <==> indexed_png_encoding(plte@, opt_bytes(trns), indices@, width, height)
            is Some,
        r is Ok ==> r->Ok_0@ == some_of(
            indexed_png_encoding(plte@, opt_bytes(trns), indices@, width, height),
        ),
{
    let mut cursor = std::io::Cursor::new(Vec::new());
    {
        let mut encoder = png::Encoder::new(&mut cursor, width, height);
        encoder.set_color(png::ColorType::Indexed);
        encoder.set_depth(png::BitDepth::Eight);
        encoder.set_palette(plte.clone());
        if let Some(t) = trns {
            encoder.set_trns(t.clone());
        }
        let mut writer = encoder.write_header().map_err(|e| e.to_string())?;
        writer.write_image_data(indices).map_err(|e| e.to_string())?;
    }
    Ok(cursor.into_inner())
}

} // verus!
