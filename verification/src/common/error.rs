use vstd::prelude::*;

verus! {

/// Every way an operation of this library can fail.
///
/// Variants that wrap a lower-level failure carry its description. An object
/// that is simply not there is never an error: read paths report it as `None`.
#[derive(Debug, Clone, PartialEq, Eq)]
pub enum Error {
    /// The bytes carry a known signature, but not one of the five formats.
    FormatUnsupported,
    /// No known signature matches the leading bytes.
    FormatIndeterminate,
    /// The image backend could not decode its input.
    DecodeFailed(String),
    /// The image backend could not encode its output.
    EncodeFailed(String),
    /// The external transcoder could not be started.
    TranscodeSpawnFailed(String),
    /// The external transcoder ran and reported failure; carries its exit
    /// code, or `None` when it was ended by a signal.
    TranscodeProcessFailed(Option<i32>),
    /// The object store could not be reached or answered unusably.
    StorageUnavailable(String),
    /// The NFT metadata document is not well-formed.
    MetadataParseFailed(String),
    /// The NFT metadata names no image.
    MetadataImageMissing,
    /// A fetched body grew beyond the cap; carries the size that was refused.
    BodyTooLarge(usize),
    /// An outbound fetch failed before or while reading the body.
    FetchFailed(String),
    /// The scratch directory could not be listed or cleaned.
    SweepIOFailed(String),
}

} // verus!
