//! Model acquisition and cache management for an audio transcription tool.
//!
//! The library computes the canonical on-disk layout of the model cache,
//! decides which artifacts are available, and drives the acquisition
//! workflow (confirmation, downloads, extraction, completion marker) as a
//! verified state machine.  All filesystem, network and terminal work is
//! left to a thin unverified shell that feeds plain values back in.

use vstd::prelude::*;

pub mod acquisition;
pub mod availability;
pub mod browser;
pub mod chars;
pub mod download;
pub mod error;
pub mod model_manager;
pub mod numfmt;
pub mod progress;
pub mod transcript;

verus! {

/// The five sizes the transcription model is published in.
#[derive(Clone, Copy, Debug, PartialEq, Eq, Structural)]
pub enum ModelSize {
    Tiny,
    Base,
    Small,
    Medium,
    Large,
}

impl ModelSize {
    /// The lower-case name of the size, as used in paths and URLs.
    pub open spec fn spec_name(self) -> Seq<char> {
        match self {
            ModelSize::Tiny => "tiny"@,
            ModelSize::Base => "base"@,
            ModelSize::Small => "small"@,
            ModelSize::Medium => "medium"@,
            ModelSize::Large => "large"@,
        }
    }

    pub fn as_str(&self) -> (r: &'static str)
        ensures
            r@ == self.spec_name(),
    {
        match self {
            ModelSize::Tiny => "tiny",
            ModelSize::Base => "base",
            ModelSize::Small => "small",
            ModelSize::Medium => "medium",
            ModelSize::Large => "large",
        }
    }

    pub fn to_string(&self) -> (r: String)
        ensures
            r@ == self.spec_name(),
    {
        self.as_str().to_owned()
    }
}

} // verus!
