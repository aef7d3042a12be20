//! Batch image compression: shrinks PNG and JPEG files in place, never
//! making a file larger, and reports one progress event per completed file.
//!
//! The strategy engine ([`strategy`]) picks a pipeline by file extension:
//! lossy PNG requests quantize to a palette ([`quantize`], [`palette`]) and
//! re-encode ([`codec`]) before structural optimization ([`optimizer`]),
//! falling back to the lossless pipeline when no acceptable palette exists;
//! JPEG requests re-encode at the effective quality ([`config`]). A
//! size-safety gate keeps a candidate only when it is strictly smaller than
//! the original. Outcomes ([`outcome`]) and the batch completion counter
//! ([`progress`]) carry proved invariants; callers supply the file bytes
//! and perform the writes the engine asks for.

pub mod codec;
pub mod config;
pub mod outcome;
pub mod progress;
pub mod palette;
pub mod paths;
pub mod quantize;
pub mod optimizer;
pub mod strategy;
