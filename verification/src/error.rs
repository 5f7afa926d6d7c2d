use vstd::prelude::*;

verus! {

/// The error vocabulary of the capture pipeline.
///
/// Start-phase errors (device resolution, format support, stream or
/// writer setup) abort the start command; stop-phase errors (merge,
/// normalize, persistence) are logged by the shell and the pipeline
/// proceeds best-effort.
#[derive(Clone, Copy, Debug, PartialEq, Eq, Structural)]
pub enum AudioError {
    /// A device id did not parse, or its ordinal no longer exists.
    DeviceResolution,
    /// The hardware's native sample format is outside the supported set.
    UnsupportedFormat,
    /// A hardware stream failed to open, start or pause.
    Stream,
    /// A buffered file writer failed to be created or finalized.
    Writer,
    /// The two-file merge routine failed.
    Merge,
    /// The loudness-normalization routine failed.
    Normalize,
    /// Directory creation, rename and copy all failed.
    Persistence,
}

} // verus!
