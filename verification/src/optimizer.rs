use vstd::prelude::*;
use crate::codec::{decoded_image, some_of};

verus! {

/// Chunk-stripping policy for structural PNG optimization. `Safe` keeps
/// chunks needed for correct rendering and color management; `All` strips
/// every non-critical chunk.
#[derive(Clone, Copy, Debug, PartialEq, Eq, Structural)]
pub enum StripPolicy {
    Safe,
    All,
}

/// What structural PNG optimization yields on a byte stream under a strip
/// policy: `None` when the input is not a well-formed PNG, otherwise the
/// re-compressed byte stream.
pub uninterp spec fn optimized_png(data: Seq<u8>, strip_all: bool) -> Option<Seq<u8>>;

/// Relies on `oxipng::optimize_from_memory` with `Options::from_preset(2)`,
/// built without its parallel feature so the result is a function of the
/// bytes and the strip policy alone. Optimization is lossless on pixel
/// content: decoding its output yields exactly the pixels of the input.
#[verifier::external_body]
pub(crate) fn optimize_png(data: &Vec<u8>, policy: StripPolicy) -> (r: Result<Vec<u8>, String>)
    ensures
        r is Ok <==> optimized_png(data@, policy is All) is Some,
        r is Ok ==> r->Ok_0@ == some_of(optimized_png(data@, policy is All)),
        r is Ok ==> decoded_image(r->Ok_0@) == decoded_image(data@),
{
    let mut opts = oxipng::Options::from_preset(2);
    opts.strip = match policy {
        StripPolicy::Safe => oxipng::StripChunks::Safe,
        StripPolicy::All => oxipng::StripChunks::All,
    };
    match oxipng::optimize_from_memory(data, &opts) {
        Ok(v) => Ok(v),
        Err(e) => Err(e.to_string()),
    }
}

} // verus!
