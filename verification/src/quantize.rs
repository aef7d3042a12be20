use vstd::prelude::*;
use crate::codec::{some_of, PixelBuffer};

verus! {

/// What palette quantization yields on an RGBA8 buffer for a quality range
/// `floor..=target`: `None` when no acceptable palette exists within the
/// range (or the range itself is rejected), otherwise the palette as a flat
/// RGBA byte sequence and one palette index per pixel.
pub uninterp spec fn quantized_image(
    pixels: Seq<u8>,
    width: u32,
    height: u32,
    floor: u8,
    target: u8,
) -> Option<(Seq<u8>, Seq<u8>)>;

/// Relies on `imagequant` (`Attributes::set_quality`, `new_image_borrowed`,
/// `quantize`, `QuantizationResult::set_dithering_level`, `remapped`), built
/// single-threaded so the result is a function of the arguments alone.
/// Dithering runs at full strength and gamma is left at the sRGB default.
/// `remapped` returns at most 256 palette entries and one index per pixel,
/// each index naming a palette entry.
#[verifier::external_body]
pub(crate) fn quantize_pixels(buf: &PixelBuffer, floor: u8, target: u8) -> (r: Option<
    (Vec<u8>, Vec<u8>),
>)
    requires
        buf.wf(),
    ensures
        r is Some <==> quantized_image(buf.pixels@, buf.width, buf.height, floor, target) is Some,
        r is Some ==> {
            let q = some_of(quantized_image(buf.pixels@, buf.width, buf.height, floor, target));
            &&& (r->0).0@ == q.0
            &&& (r->0).1@ == q.1
            &&& q.0.len() % 4 == 0
            &&& q.0.len() <= 1024
            &&& q.1.len() == (buf.width as int) * (buf.height as int)
            &&& forall|i: int| 0 <= i < q.1.len() ==> 4 * (q.1[i] as int) < q.0.len()
        },
{
    let mut attr = imagequant::Attributes::new();
    attr.set_quality(floor, target).ok()?;
    let rgba: &[rgb::RGBA8] = bytemuck::cast_slice(buf.pixels.as_slice());
    let w = buf.width as usize;
    let h = buf.height as usize;
    let mut img = attr.new_image_borrowed(rgba, w, h, Default::default()).ok()?;
    let mut quant = attr.quantize(&mut img).ok()?;
    quant.set_dithering_level(1u8.into()).ok()?;
    let (palette, indices) = quant.remapped(&mut img).ok()?;
    Some((palette.iter().flat_map(|c| [c.r, c.g, c.b, c.a]).collect(), indices))
}

} // verus!
