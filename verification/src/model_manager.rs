//! The model cache root and its directory layout.
//!
//! A `ModelManager` owns the cache root for the lifetime of the process;
//! every path handed out is a pure function of that root.  Creating the
//! directories themselves is filesystem work that the unverified shell
//! performs over the list [`ModelManager::required_directories`].

use vstd::prelude::*;

use crate::ModelSize;
use crate::download::{
    get_pyannote_model_dir, get_whisper_model_path, spec_pyannote_model_dir,
    spec_whisper_model_dir, spec_whisper_model_path,
};
use crate::error::AudioTranscriptionError;

verus! {

/// The cache directory for this tool under a platform base directory:
/// `<base>/audio-transcribe/models`.
pub open spec fn spec_models_cache_dir(base: Seq<char>) -> Seq<char> {
    base + "/audio-transcribe/models"@
}

/// Relies on `dirs::cache_dir`: the platform's standard cache directory,
/// if the platform defines one.  The result depends on the environment,
/// so nothing is promised of it.
#[verifier::external_body]
fn platform_cache_dir() -> Option<String> {
    dirs::cache_dir().map(|p| p.to_string_lossy().into_owned())
}

pub struct ModelManager {
    /// The cache root all model paths live under.
    pub cache_dir: String,
}

impl ModelManager {
    /// Resolve the platform cache root.  Fails exactly when the platform
    /// has no cache directory to offer.
    pub fn new() -> (r: Result<ModelManager, AudioTranscriptionError>)
        ensures
            r matches Ok(m) ==> exists|base: Seq<char>| m.cache_dir@ == spec_models_cache_dir(base),
            r matches Err(e) ==> (e matches AudioTranscriptionError::Configuration(msg) && msg@
                == "Unable to determine cache directory"@),
    {
        match platform_cache_dir() {
            Option::Some(base) => {
                let ghost b = base@;
                let mut cache_dir = base;
                cache_dir.append("/audio-transcribe/models");
                proof {
                    assert(cache_dir@ == spec_models_cache_dir(b));
                }
                Ok(ModelManager { cache_dir })
            },
            Option::None => Err(
                AudioTranscriptionError::Configuration(
                    "Unable to determine cache directory".to_owned(),
                ),
            ),
        }
    }

    /// A manager over an explicit cache root, for callers that manage
    /// their own directories (and for tests against scratch roots).
    pub fn with_cache_dir(cache_dir: String) -> (r: ModelManager)
        ensures
            r.cache_dir == cache_dir,
    {
        ModelManager { cache_dir }
    }

    pub fn cache_dir(&self) -> (r: &String)
        ensures
            r == &self.cache_dir,
    {
        &self.cache_dir
    }

    /// The whisper model directory for a specific model size.
    pub fn get_whisper_model_dir(&self, size: &ModelSize) -> (r: String)
        ensures
            r@ == spec_whisper_model_dir(self.cache_dir@, *size),
    {
        let mut r = self.cache_dir.clone();
        r.append("/whisper/");
        r.append(size.as_str());
        proof {
            assert(r@ =~= spec_whisper_model_dir(self.cache_dir@, *size));
        }
        r
    }

    /// The pyannote model directory.
    pub fn get_pyannote_model_dir(&self) -> (r: String)
        ensures
            r@ == spec_pyannote_model_dir(self.cache_dir@),
    {
        get_pyannote_model_dir(self.cache_dir.as_str())
    }

    /// The full path to a whisper model file.
    pub fn get_whisper_model_path(&self, size: &ModelSize) -> (r: String)
        ensures
            r@ == spec_whisper_model_path(self.cache_dir@, *size),
    {
        get_whisper_model_path(self.cache_dir.as_str(), size)
    }

    /// The full path to the legacy pyannote model file.
    pub fn get_pyannote_model_path(&self) -> (r: String)
        ensures
            r@ == spec_pyannote_model_dir(self.cache_dir@) + "/pytorch_model.bin"@,
    {
        let mut r = self.get_pyannote_model_dir();
        r.append("/pytorch_model.bin");
        r
    }

    /// Every directory that must exist under the cache root before any
    /// model is acquired: the root itself, the whisper directory with one
    /// subdirectory per size, and the pyannote directory.  The unverified
    /// shell creates each of these (recursively) at startup.
    pub fn required_directories(&self) -> (r: Vec<String>)
        ensures
            r@.len() == 8,
            r@[0]@ == self.cache_dir@,
            r@[1]@ == self.cache_dir@ + "/whisper"@,
            r@[2]@ == spec_whisper_model_dir(self.cache_dir@, ModelSize::Tiny),
            r@[3]@ == spec_whisper_model_dir(self.cache_dir@, ModelSize::Base),
            r@[4]@ == spec_whisper_model_dir(self.cache_dir@, ModelSize::Small),
            r@[5]@ == spec_whisper_model_dir(self.cache_dir@, ModelSize::Medium),
            r@[6]@ == spec_whisper_model_dir(self.cache_dir@, ModelSize::Large),
            r@[7]@ == spec_pyannote_model_dir(self.cache_dir@),
    {
        let mut r: Vec<String> = Vec::new();
        r.push(self.cache_dir.clone());
        let mut whisper = self.cache_dir.clone();
        whisper.append("/whisper");
        r.push(whisper);
        r.push(self.get_whisper_model_dir(&ModelSize::Tiny));
        r.push(self.get_whisper_model_dir(&ModelSize::Base));
        r.push(self.get_whisper_model_dir(&ModelSize::Small));
        r.push(self.get_whisper_model_dir(&ModelSize::Medium));
        r.push(self.get_whisper_model_dir(&ModelSize::Large));
        r.push(self.get_pyannote_model_dir());
        r
    }
}

} // verus!
