use vstd::prelude::*;
use crate::codec::{
    decode_pixels, decoded_image, encode_indexed_png, encode_jpeg, indexed_png_encoding,
    jpeg_encoding, some_of,
};
use crate::config::{
    effective_jpeg_quality, quality_floor, spec_effective_jpeg_quality, spec_quality_floor,
    CompressionMode, CompressionOptions,
};
use crate::optimizer::{optimize_png, optimized_png, StripPolicy};
use crate::outcome::{create_error_result, create_success_result, CompressionResult};
use crate::palette::{spec_has_transparency, spec_plte, spec_trns, split_palette};
use crate::paths::{format_of_path, spec_format_of, FileFormat};
use crate::quantize::{quantize_pixels, quantized_image};

verus! {

/// A failure that ends one file's pipeline, tagged by the stage that raised
/// it; the carried string is the stage's own message.
#[derive(Debug)]
pub enum CompressError {
    Decode(String),
    Encode(String),
    Optimization(String),
}

impl CompressError {
    pub open spec fn spec_message(self) -> Seq<char> {
        match self {
            CompressError::Decode(s) => s@,
            CompressError::Encode(s) => s@,
            CompressError::Optimization(s) => s@,
        }
    }

    /// The human-readable message carried to the outcome record.
    pub fn into_message(self) -> (m: String)
        ensures
            m@ == self.spec_message(),
    {
        match self {
            CompressError::Decode(s) => s,
            CompressError::Encode(s) => s,
            CompressError::Optimization(s) => s,
        }
    }
}

/// Candidate bytes of the lossless PNG path: structural optimization of the
/// raw bytes under the `Safe` strip policy.
pub open spec fn spec_png_lossless(data: Seq<u8>) -> Option<Seq<u8>> {
    optimized_png(data, false)
}

/// Candidate bytes of the lossy PNG path: decode, quantize within the
/// derived quality range, build an indexed PNG (with a transparency chunk
/// only when some palette entry has alpha below 255), then structurally
/// optimize under the `All` strip policy, keeping the unoptimized palette
/// PNG when that last, optional stage fails. A quantization failure
/// degrades to the lossless path on the original bytes; a decode or encode
/// failure is fatal for the file.
pub open spec fn spec_png_lossy(data: Seq<u8>, quality: u8) -> Option<Seq<u8>> {
    match decoded_image(data) {
        None => None,
        Some(img) => match quantized_image(
            img.2,
            img.0,
            img.1,
            spec_quality_floor(quality),
            quality,
        ) {
            None => spec_png_lossless(data),
            Some(q) => {
                let trns = if spec_has_transparency(q.0) {
                    Some(spec_trns(q.0))
                } else {
                    None
                };
                match indexed_png_encoding(spec_plte(q.0), trns, q.1, img.0, img.1) {
                    None => None,
                    Some(encoded) => match optimized_png(encoded, true) {
                        None => Some(encoded),
                        Some(optimized) => Some(optimized),
                    },
                }
            },
        },
    }
}

/// Candidate bytes of the JPEG path: decode, then re-encode at the
/// effective quality (100 for a lossless request).
pub open spec fn spec_jpeg_candidate(data: Seq<u8>, mode: CompressionMode, quality: u8) -> Option<
    Seq<u8>,
> {
    match decoded_image(data) {
        None => None,
        Some(img) => jpeg_encoding(img.2, img.0, img.1, spec_effective_jpeg_quality(mode, quality)),
    }
}

/// The candidate byte stream the strategy engine produces for one file,
/// before the size-safety gate; `None` when the pipeline fails for the file.
pub open spec fn spec_candidate(format: FileFormat, data: Seq<u8>, opts: CompressionOptions) -> Option<
    Seq<u8>,
> {
    match format {
        FileFormat::Png => if opts.mode is Lossy {
            spec_png_lossy(data, opts.quality)
        } else {
            spec_png_lossless(data)
        },
        FileFormat::Jpeg => spec_jpeg_candidate(data, opts.mode, opts.quality),
        FileFormat::Unsupported => None,
    }
}

/// Lossy-to-lossless fallback: when quantization cannot produce a palette
/// within the quality range for a decodable PNG, the lossy pipeline's
/// candidate equals the lossless pipeline's candidate on the same bytes.
pub proof fn lemma_lossy_fallback(data: Seq<u8>, quality: u8)
    requires
        decoded_image(data) is Some,
        quantized_image(
            some_of(decoded_image(data)).2,
            some_of(decoded_image(data)).0,
            some_of(decoded_image(data)).1,
            spec_quality_floor(quality),
            quality,
        ) is None,
    ensures
        spec_png_lossy(data, quality) == spec_png_lossless(data),
{
}

fn png_lossless_candidate(data: &Vec<u8>) -> (r: Result<Vec<u8>, CompressError>)
    ensures
        r is Ok <==> spec_png_lossless(data@) is Some,
        r is Ok ==> r->Ok_0@ == some_of(spec_png_lossless(data@)),
        // pixel fidelity: the candidate decodes to exactly the input's pixels
        r is Ok ==> decoded_image(r->Ok_0@) == decoded_image(data@),
        r is Err ==> r->Err_0 is Optimization,
{
    match optimize_png(data, StripPolicy::Safe) {
        Ok(v) => Ok(v),
        Err(e) => Err(CompressError::Optimization(e)),
    }
}

fn png_lossy_candidate(data: &Vec<u8>, quality: u8) -> (r: Result<Vec<u8>, CompressError>)
    ensures
        r is Ok <==> spec_png_lossy(data@, quality) is Some,
        r is Ok ==> r->Ok_0@ == some_of(spec_png_lossy(data@, quality)),
        r is Err ==> (r->Err_0 is Decode <==> decoded_image(data@) is None),
        r is Err && decoded_image(data@) is Some ==> {
            let img = some_of(decoded_image(data@));
            let quant = quantized_image(img.2, img.0, img.1, spec_quality_floor(quality), quality);
            &&& (r->Err_0 is Encode <==> quant is Some)
            &&& (r->Err_0 is Optimization <==> quant is None)
        },
{
    let buf = match decode_pixels(data) {
        Ok(b) => b,
        Err(e) => {
            return Err(CompressError::Decode(e));
        },
    };
    let floor = quality_floor(quality);
    match quantize_pixels(&buf, floor, quality) {
        Some(pq) => {
            let (palette, indices) = pq;
            let (plte, trns, has_t) = split_palette(&palette);
            let trns_opt = if has_t {
                Some(&trns)
            } else {
                None
            };
            let encoded = match encode_indexed_png(&plte, trns_opt, &indices, buf.width, buf.height) {
                Ok(v) => v,
                Err(e) => {
                    return Err(CompressError::Encode(e));
                },
            };
            match optimize_png(&encoded, StripPolicy::All) {
                Ok(v) => Ok(v),
                // the optional final stage failed: keep the unoptimized palette PNG
                Err(_) => Ok(encoded),
            }
        },
        // no acceptable palette within the quality range: degrade to lossless
        None => {
            match optimize_png(data, StripPolicy::Safe) {
                Ok(v) => Ok(v),
                Err(e) => Err(CompressError::Optimization(e)),
            }
        },
    }
}

fn jpeg_candidate(data: &Vec<u8>, mode: CompressionMode, quality: u8) -> (r: Result<
    Vec<u8>,
    CompressError,
>)
    ensures
        r is Ok <==> spec_jpeg_candidate(data@, mode, quality) is Some,
        r is Ok ==> r->Ok_0@ == some_of(spec_jpeg_candidate(data@, mode, quality)),
        r is Err ==> (r->Err_0 is Decode <==> decoded_image(data@) is None),
        r is Err ==> (r->Err_0 is Encode <==> decoded_image(data@) is Some),
{
    let buf = match decode_pixels(data) {
        Ok(b) => b,
        Err(e) => {
            return Err(CompressError::Decode(e));
        },
    };
    let q = effective_jpeg_quality(mode, quality);
    match encode_jpeg(&buf, q) {
        Ok(v) => Ok(v),
        Err(e) => Err(CompressError::Encode(e)),
    }
}

/// Runs the per-format pipeline on in-memory bytes and returns the candidate
/// byte stream, before the size-safety gate.
pub fn compress_candidate(format: FileFormat, data: &Vec<u8>, options: &CompressionOptions) -> (r:
    Result<Vec<u8>, CompressError>)
    requires
        format != FileFormat::Unsupported,
    ensures
        r is Ok <==> spec_candidate(format, data@, *options) is Some,
        r is Ok ==> r->Ok_0@ == some_of(spec_candidate(format, data@, *options)),
        // a lossless PNG request never alters pixel content
        r is Ok && format is Png && options.mode is Lossless ==> decoded_image(r->Ok_0@)
            == decoded_image(data@),
        // a failed decode is reported as such, whatever the pipeline
        r is Err ==> (r->Err_0 is Decode ==> decoded_image(data@) is None),
{
    if format == FileFormat::Png {
        if options.mode == CompressionMode::Lossy {
            png_lossy_candidate(data, options.quality)
        } else {
            png_lossless_candidate(data)
        }
    } else {
        jpeg_candidate(data, options.mode, options.quality)
    }
}

/// What one file's pipeline asks of its caller once the in-memory work is
/// done.
pub enum FileAction {
    /// Persist the candidate bytes over the original file, then report the
    /// outcome (which already carries the new size and the byte delta).
    Write(Vec<u8>, CompressionResult),
    /// Report the outcome; the file on disk is left untouched.
    Finish(CompressionResult),
}

/// The strategy engine for one file: selects the pipeline by extension,
/// produces the candidate bytes, and applies the size-safety gate. A write
/// is requested only for a strictly smaller candidate; otherwise the file
/// keeps its original bytes and the outcome reports zero savings. Every
/// failure becomes an `Error`-status outcome; nothing escapes.
pub fn process_file_data(
    path: String,
    original_size: u64,
    data: &Vec<u8>,
    options: &CompressionOptions,
) -> (r: FileAction)
    ensures
        ({
            let format = spec_format_of(path@);
            let cand = spec_candidate(format, data@, *options);
            match r {
                FileAction::Write(bytes, outcome) => {
                    &&& format != FileFormat::Unsupported
                    &&& cand is Some
                    &&& bytes@ == some_of(cand)
                    &&& bytes@.len() < original_size
                    &&& outcome.wf()
                    &&& outcome.status is Success
                    &&& outcome.file_path == path
                    &&& outcome.original_size == original_size
                    &&& outcome.compressed_size == bytes@.len()
                    &&& (format is Png && options.mode is Lossless ==> decoded_image(bytes@)
                        == decoded_image(data@))
                },
                FileAction::Finish(outcome) => {
                    &&& outcome.wf()
                    &&& outcome.file_path == path
                    &&& if format == FileFormat::Unsupported {
                        &&& outcome.status is Error
                        &&& (outcome.error)->0@ == "Unsupported format"@
                    } else if cand is None {
                        outcome.status is Error
                    } else {
                        &&& some_of(cand).len() >= original_size
                        &&& outcome.status is Success
                        &&& outcome.original_size == original_size
                        &&& outcome.compressed_size == original_size
                        &&& outcome.saved_before == 0
                    }
                },
            }
        }),
{
    let format = format_of_path(path.as_str());
    if format == FileFormat::Unsupported {
        return FileAction::Finish(
            create_error_result(path, String::from_str("Unsupported format")),
        );
    }
    match compress_candidate(format, data, options) {
        Err(e) => FileAction::Finish(create_error_result(path, e.into_message())),
        Ok(candidate) => {
            let compressed = candidate.len() as u64;
            if compressed < original_size {
                let outcome = create_success_result(path, original_size, compressed);
                FileAction::Write(candidate, outcome)
            } else {
                FileAction::Finish(create_success_result(path, original_size, original_size))
            }
        },
    }
}

} // verus!
