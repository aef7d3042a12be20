use vstd::prelude::*;

verus! {

/// Whether a file's compression run ended with a usable result.
#[derive(Clone, Copy, Debug, PartialEq, Eq, Structural)]
pub enum OutcomeStatus {
    Success,
    Error,
}

/// One record per processed file, reported to the batch observer.
///
/// An `Error` record carries a message and zeroed size fields; a `Success`
/// record never reports a compressed size above the original, and
/// `saved_before` is exactly the byte delta (zero when no improvement was
/// kept and the file on disk was left untouched).
#[derive(Clone, Debug, PartialEq)]
pub struct CompressionResult {
    pub file_path: String,
    pub original_size: u64,
    pub compressed_size: u64,
    pub saved_before: u64,
    pub status: OutcomeStatus,
    pub error: Option<String>,
}

impl CompressionResult {
    pub open spec fn wf(self) -> bool {
        match self.status {
            OutcomeStatus::Success => {
                &&& self.error is None
                &&& self.compressed_size <= self.original_size
                &&& self.saved_before == self.original_size - self.compressed_size
            },
            OutcomeStatus::Error => {
                &&& self.error is Some
                &&& self.original_size == 0
                &&& self.compressed_size == 0
                &&& self.saved_before == 0
            },
        }
    }
}

/// Every failure inside one file's pipeline is converted into an
/// `Error`-status record carrying a message; size fields are zeroed.
pub fn create_error_result(path: String, message: String) -> (r: CompressionResult)
    ensures
        r.wf(),
        r.status is Error,
        r.file_path == path,
        r.error == Some(message),
{
    CompressionResult {
        file_path: path,
        original_size: 0,
        compressed_size: 0,
        saved_before: 0,
        status: OutcomeStatus::Error,
        error: Some(message),
    }
}

/// A successful outcome; callers establish the size-safety gate
/// (`compressed_size <= original_size`) before building it.
pub fn create_success_result(path: String, original_size: u64, compressed_size: u64) -> (r:
    CompressionResult)
    requires
        compressed_size <= original_size,
    ensures
        r.wf(),
        r.status is Success,
        r.file_path == path,
        r.original_size == original_size,
        r.compressed_size == compressed_size,
        r.saved_before == original_size - compressed_size,
        r.error is None,
{
    CompressionResult {
        file_path: path,
        original_size,
        compressed_size,
        saved_before: original_size - compressed_size,
        status: OutcomeStatus::Success,
        error: None,
    }
}

/// Size safety: a well-formed successful outcome never reports a compressed
/// size above the original, and the saved byte count is exactly the
/// difference between the two sizes.
pub proof fn lemma_size_safety(r: CompressionResult)
    requires
        r.wf(),
        r.status is Success,
    ensures
        r.compressed_size <= r.original_size,
        r.saved_before == r.original_size - r.compressed_size,
{
}

} // verus!
