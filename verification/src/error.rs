//! The error type shared by every component of the library.
//!
//! Failures that originate outside the library (filesystem, network,
//! the extraction tool) are handed in as plain strings; each variant
//! records which kind of step failed.

use vstd::prelude::*;

verus! {

#[derive(Debug, Clone)]
pub enum AudioTranscriptionError {
    /// A directory or file operation failed.
    Io(String),
    /// Audio decoding or processing failed.
    Audio(String),
    /// A model artifact is unusable.
    Model(String),
    /// An HTTP request failed or returned a non-success status.
    Network(String),
    /// A download finished but the artifact on disk is empty.
    EmptyArtifact(String),
    /// The external extraction tool exited with a non-zero status.
    Extract(String),
    /// The file browser could not read a directory.
    FileBrowser(String),
    /// The selected file has an extension the pipeline cannot decode.
    UnsupportedFormat(String),
    /// Not enough memory for the requested configuration.
    InsufficientMemory(String),
    /// GPU acceleration was requested but is not usable.
    GpuUnavailable(String),
    /// The platform cache directory could not be determined.
    Configuration(String),
}

} // verus!
