use vstd::prelude::*;

verus! {

/// Whether a compression run may discard color information to save space.
#[derive(Clone, Copy, Debug, PartialEq, Eq, Structural)]
pub enum CompressionMode {
    Lossy,
    Lossless,
}

/// User-facing compression settings, shared read-only by every worker in a batch.
#[derive(Clone, Copy, Debug)]
pub struct CompressionOptions {
    pub mode: CompressionMode,
    /// Target quality as a percentage, `0..=100`.
    pub quality: u8,
}

impl CompressionOptions {
    pub open spec fn wf(self) -> bool {
        self.quality <= 100
    }
}

/// Lower end of the quality range handed to the quantizer: thirty points below
/// the requested quality, clamped at zero. A floor lets the quantizer reject
/// excessively poor palettes at high target quality while still allowing
/// aggressive reduction at low target quality.
pub open spec fn spec_quality_floor(quality: u8) -> u8 {
    if quality > 30 {
        (quality - 30) as u8
    } else {
        0
    }
}

pub fn quality_floor(quality: u8) -> (floor: u8)
    ensures
        floor == spec_quality_floor(quality),
        floor <= quality,
{
    if quality > 30 {
        quality - 30
    } else {
        0
    }
}

/// Quality-range mapping: a request of 90 gives a floor of 60, a request of
/// 20 gives a floor of 0, and the floor never exceeds the requested quality.
pub proof fn lemma_quality_floor(q: u8)
    ensures
        spec_quality_floor(90) == 60,
        spec_quality_floor(20) == 0,
        spec_quality_floor(q) <= q,
{
}

/// The quality actually handed to the JPEG encoder: a lossless request
/// forces 100, a lossy request passes the configured quality through.
pub open spec fn spec_effective_jpeg_quality(mode: CompressionMode, quality: u8) -> u8 {
    if mode is Lossless {
        100
    } else {
        quality
    }
}

pub fn effective_jpeg_quality(mode: CompressionMode, quality: u8) -> (q: u8)
    ensures
        q == spec_effective_jpeg_quality(mode, quality),
{
    match mode {
        CompressionMode::Lossless => 100,
        CompressionMode::Lossy => quality,
    }
}

} // verus!
