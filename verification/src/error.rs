use vstd::prelude::*;

verus! {

/// Why an encode call produced no gzip member.
#[derive(Clone, Copy, Debug, PartialEq, Eq, Structural)]
pub enum GzError {
    /// The engine refused the compression parameters when it was initialised.
    InvalidParameters,
    /// A header was supplied but the window bits do not select the gzip
    /// container.
    HeaderRejected,
    /// A header field cannot be represented: a name or comment holds a NUL
    /// byte, or the extra field is longer than 65535 bytes.
    InvalidHeaderField,
    /// The engine stopped before it reported the end of the stream.
    CompressionFailed,
    /// The stream was complete but the engine reported a failure while it
    /// was torn down.
    TeardownFailed,
}

} // verus!
