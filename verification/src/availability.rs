//! Deciding whether a model artifact is present.
//!
//! The unverified shell stats a path and reports what it saw as a
//! `FileProbe`; any filesystem error fails closed and is reported as
//! `None`, because a missing artifact is always recoverable (it triggers
//! a re-download) and must never crash the caller.

use vstd::prelude::*;

verus! {

/// What a successful stat of a path revealed.
#[derive(Clone, Copy, Debug, PartialEq, Eq, Structural)]
pub struct FileProbe {
    /// The path resolved to a regular file.
    pub is_file: bool,
    /// The file's length in bytes.
    pub len: u64,
}

/// An artifact is available iff its path resolved to a regular file of
/// non-zero length.  `None` stands for a failed or missing stat.
pub open spec fn spec_available(probe: Option<FileProbe>) -> bool {
    match probe {
        Option::Some(p) => p.is_file && p.len > 0,
        Option::None => false,
    }
}

/// The availability decision for one artifact: false for a missing or
/// unreadable path, false for an empty file, true otherwise.
pub fn is_available(probe: &Option<FileProbe>) -> (r: bool)
    ensures
        r == spec_available(*probe),
{
    match probe {
        Option::Some(p) => p.is_file && p.len > 0,
        Option::None => false,
    }
}

/// Diarization needs both the segmentation model and the embedding model
/// to be independently available; a partial setup counts as wholly
/// unavailable.
pub fn diarization_available(segmentation: &Option<FileProbe>, embedding: &Option<FileProbe>) -> (r:
    bool)
    ensures
        r == (spec_available(*segmentation) && spec_available(*embedding)),
{
    is_available(segmentation) && is_available(embedding)
}

} // verus!
