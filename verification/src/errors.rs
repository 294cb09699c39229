use vstd::prelude::*;

verus! {

/// The single error surface of the dispatch layer.
///
/// Domain errors (`EncodeDomain`, `TokenNotFound`, `TokenOutOfRange`) are
/// produced by a worker and describe a problem with the caller's input; they
/// are recoverable. `Construction` means the one-time
/// encoding-table build failed and is replayed to every caller.
/// `DispatchFailure` is synthesized by the facade when a reply channel was
/// never fulfilled; it signals a service-health problem, not an input problem.
#[derive(Clone, Copy, PartialEq, Eq, Structural, Debug)]
pub enum TokenizerError {
    /// The encoding table could not be built.
    Construction,
    /// Encoding rejected the input under the request's special-token policy.
    EncodeDomain,
    /// A single-token encode input does not map to exactly one vocabulary entry.
    TokenNotFound,
    /// A token id lies outside the vocabulary's valid range.
    TokenOutOfRange,
    /// The reply channel for a request was never fulfilled.
    DispatchFailure,
}

} // verus!
