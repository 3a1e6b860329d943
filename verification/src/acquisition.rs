//! The model acquisition workflow as a verified state machine.
//!
//! One acquisition run moves through the phases
//! confirmation -> transcription download -> segmentation download ->
//! extraction -> embedding download -> marker write, skipping the steps
//! whose artifacts are already present, in that fixed order.  Each phase
//! names exactly one piece of outside work (`AcquisitionAction`); the
//! unverified shell performs it and reports the outcome back through
//! [`ModelAcquisition::step_completed`].  Any failure aborts the whole
//! run at once: there is no retry and no partial-success continuation.

use vstd::prelude::*;

use crate::ModelSize;
use crate::download::{
    get_pyannote_model_dir, get_pyannote_model_path, get_pyannote_segmentation_model_path,
    get_speaker_embedding_model_path, get_whisper_model_path, scratch_archive_path,
    segmentation_archive_url, spec_embedding_model_path, spec_pyannote_marker_path,
    spec_pyannote_model_dir, spec_scratch_archive_path, spec_segmentation_model_path,
    spec_whisper_model_path, spec_whisper_model_url, whisper_model_url, embedding_model_url,
};
use crate::chars::{eq_ci_char, is_space_char, spec_eq_ci, spec_is_space};
use crate::error::AudioTranscriptionError;

verus! {

/// How an acquisition run ended.
#[derive(Debug, Clone)]
pub enum AcquisitionOutcome {
    /// Every required artifact is available.
    Available,
    /// The operator declined the download; nothing was touched.
    Declined,
    /// A step failed; the error is the one its step reported.
    Failed(AudioTranscriptionError),
}

/// Where an acquisition run currently stands.
#[derive(Debug, Clone)]
pub enum AcquisitionPhase {
    /// Blocked on the operator's yes/no answer.
    AwaitingConfirmation,
    /// Fetching the whisper model file.
    TranscriptionDownload,
    /// Fetching the segmentation archive to the scratch path.
    SegmentationDownload,
    /// Unpacking the segmentation archive into the pyannote directory.
    SegmentationExtract,
    /// Fetching the speaker embedding model file.
    EmbeddingDownload,
    /// Recording the completion marker.
    MarkerWrite,
    /// Nothing left to do.
    Complete(AcquisitionOutcome),
}

/// The one piece of outside work the current phase asks for.
#[derive(Debug, Clone)]
pub enum AcquisitionAction {
    /// Show the missing artifacts and read one line of operator input.
    Prompt { missing: Vec<String> },
    /// Fetch `url` and stream the body to `destination`.
    Download { url: String, destination: String },
    /// Run the extraction tool on `archive` with output directory
    /// `destination_dir`, then discard the archive (best effort).
    Extract { archive: String, destination_dir: String },
    /// Write the completion marker at `path`, quoting the two resolved
    /// model paths.
    WriteMarker { path: String, segmentation_path: String, embedding_path: String },
    /// The run is complete; no further work.
    Finished,
}

/// One acquisition run over a fixed cache root and scratch directory.
pub struct ModelAcquisition {
    /// The cache root every artifact path is computed from.
    pub cache_dir: String,
    /// The directory the segmentation archive is parked in.
    pub scratch_dir: String,
    /// The transcription model size this run is for.
    pub size: ModelSize,
    /// The transcription model was missing when the run started.
    pub need_transcription: bool,
    /// The diarization models were missing when the run started.
    pub need_diarization: bool,
    /// Where the run currently stands.
    pub phase: AcquisitionPhase,
}

impl ModelAcquisition {
    /// A phase only runs for an artifact that was actually missing, and
    /// the machine never awaits confirmation with nothing to acquire.
    pub open spec fn wf(self) -> bool {
        match self.phase {
            AcquisitionPhase::AwaitingConfirmation => self.need_transcription
                || self.need_diarization,
            AcquisitionPhase::TranscriptionDownload => self.need_transcription,
            AcquisitionPhase::SegmentationDownload => self.need_diarization,
            AcquisitionPhase::SegmentationExtract => self.need_diarization,
            AcquisitionPhase::EmbeddingDownload => self.need_diarization,
            AcquisitionPhase::MarkerWrite => self.need_diarization,
            AcquisitionPhase::Complete(_) => true,
        }
    }

    /// The machine is in a phase that has outside work pending.
    pub open spec fn spec_in_progress(self) -> bool {
        self.phase is TranscriptionDownload || self.phase is SegmentationDownload || self.phase
            is SegmentationExtract || self.phase is EmbeddingDownload || self.phase is MarkerWrite
    }

    /// The first work phase of a confirmed run: the transcription model
    /// first, then the diarization bundle.
    pub open spec fn spec_first_step(self) -> AcquisitionPhase {
        if self.need_transcription {
            AcquisitionPhase::TranscriptionDownload
        } else {
            AcquisitionPhase::SegmentationDownload
        }
    }

    /// The phase after the current one's work succeeded, in the fixed
    /// acquisition order.
    pub open spec fn spec_next_phase(self) -> AcquisitionPhase {
        match self.phase {
            AcquisitionPhase::TranscriptionDownload => if self.need_diarization {
                AcquisitionPhase::SegmentationDownload
            } else {
                AcquisitionPhase::Complete(AcquisitionOutcome::Available)
            },
            AcquisitionPhase::SegmentationDownload => AcquisitionPhase::SegmentationExtract,
            AcquisitionPhase::SegmentationExtract => AcquisitionPhase::EmbeddingDownload,
            AcquisitionPhase::EmbeddingDownload => AcquisitionPhase::MarkerWrite,
            AcquisitionPhase::MarkerWrite => AcquisitionPhase::Complete(
                AcquisitionOutcome::Available,
            ),
            _ => self.phase,
        }
    }

    /// Begin a run from the two availability checks.  When both artifacts
    /// are already available the run is complete at once — the idempotent
    /// fast path that asks for no prompt, no download and no write.
    pub fn start(
        cache_dir: String,
        scratch_dir: String,
        size: ModelSize,
        transcription_available: bool,
        diarization_available: bool,
    ) -> (r: ModelAcquisition)
        ensures
            r.wf(),
            r.cache_dir == cache_dir,
            r.scratch_dir == scratch_dir,
            r.size == size,
            r.need_transcription == !transcription_available,
            r.need_diarization == !diarization_available,
            transcription_available && diarization_available ==> r.phase matches
                AcquisitionPhase::Complete(AcquisitionOutcome::Available),
            !(transcription_available && diarization_available) ==> r.phase is AwaitingConfirmation,
    {
        let phase = if transcription_available && diarization_available {
            AcquisitionPhase::Complete(AcquisitionOutcome::Available)
        } else {
            AcquisitionPhase::AwaitingConfirmation
        };
        ModelAcquisition {
            cache_dir,
            scratch_dir,
            size,
            need_transcription: !transcription_available,
            need_diarization: !diarization_available,
            phase,
        }
    }

    /// Feed the operator's answer in.  `n` or `no`, case-insensitively
    /// and ignoring surrounding whitespace, declines the run and nothing
    /// is downloaded; any other answer (an empty default included)
    /// proceeds to the first pending step.
    pub fn confirm(&mut self, answer: &str)
        requires
            old(self).wf(),
            old(self).phase is AwaitingConfirmation,
        ensures
            final(self).wf(),
            final(self).cache_dir == old(self).cache_dir,
            final(self).scratch_dir == old(self).scratch_dir,
            final(self).size == old(self).size,
            final(self).need_transcription == old(self).need_transcription,
            final(self).need_diarization == old(self).need_diarization,
            spec_is_negative_answer(answer@) ==> final(self).phase matches
                AcquisitionPhase::Complete(AcquisitionOutcome::Declined),
            !spec_is_negative_answer(answer@) ==> final(self).phase == old(self).spec_first_step(),
    {
        if is_negative_answer(answer) {
            self.phase = AcquisitionPhase::Complete(AcquisitionOutcome::Declined);
        } else if self.need_transcription {
            self.phase = AcquisitionPhase::TranscriptionDownload;
        } else {
            self.phase = AcquisitionPhase::SegmentationDownload;
        }
    }

    /// Feed the outcome of the current phase's work in.  Success moves to
    /// the next step in the fixed order; any failure completes the run at
    /// once with that error, so no later step (in particular no further
    /// download) is ever attempted.
    pub fn step_completed(&mut self, outcome: Result<(), AudioTranscriptionError>)
        requires
            old(self).wf(),
            old(self).spec_in_progress(),
        ensures
            final(self).wf(),
            final(self).cache_dir == old(self).cache_dir,
            final(self).scratch_dir == old(self).scratch_dir,
            final(self).size == old(self).size,
            final(self).need_transcription == old(self).need_transcription,
            final(self).need_diarization == old(self).need_diarization,
            outcome matches Err(e) ==> final(self).phase == AcquisitionPhase::Complete(
                AcquisitionOutcome::Failed(e),
            ),
            outcome is Ok ==> final(self).phase == old(self).spec_next_phase(),
    {
        match outcome {
            Result::Err(e) => {
                self.phase = AcquisitionPhase::Complete(AcquisitionOutcome::Failed(e));
            },
            Result::Ok(_) => {
                let next = match &self.phase {
                    AcquisitionPhase::TranscriptionDownload => {
                        if self.need_diarization {
                            AcquisitionPhase::SegmentationDownload
                        } else {
                            AcquisitionPhase::Complete(AcquisitionOutcome::Available)
                        }
                    },
                    AcquisitionPhase::SegmentationDownload => AcquisitionPhase::SegmentationExtract,
                    AcquisitionPhase::SegmentationExtract => AcquisitionPhase::EmbeddingDownload,
                    AcquisitionPhase::EmbeddingDownload => AcquisitionPhase::MarkerWrite,
                    AcquisitionPhase::MarkerWrite => AcquisitionPhase::Complete(
                        AcquisitionOutcome::Available,
                    ),
                    _ => {
                        proof {
                            assert(false);
                        }
                        AcquisitionPhase::Complete(AcquisitionOutcome::Available)
                    },
                };
                self.phase = next;
            },
        }
    }

    /// The names of the artifacts this run still has to acquire, for
    /// operator visibility in the confirmation prompt.
    pub fn missing_artifacts(&self) -> (r: Vec<String>)
        ensures
            self.need_transcription && self.need_diarization ==> (r@.len() == 2 && r@[0]@
                == spec_whisper_artifact_name(self.size) && r@[1]@ == spec_diarization_artifact_name()),
            self.need_transcription && !self.need_diarization ==> (r@.len() == 1 && r@[0]@
                == spec_whisper_artifact_name(self.size)),
            !self.need_transcription && self.need_diarization ==> (r@.len() == 1 && r@[0]@
                == spec_diarization_artifact_name()),
            !self.need_transcription && !self.need_diarization ==> r@.len() == 0,
    {
        let mut r: Vec<String> = Vec::new();
        if self.need_transcription {
            let mut name = "Whisper ".to_owned();
            name.append(self.size.as_str());
            name.append(" model");
            proof {
                assert(name@ =~= spec_whisper_artifact_name(self.size));
            }
            r.push(name);
        }
        if self.need_diarization {
            r.push("Sherpa-ONNX speaker diarization models (segmentation + embedding)".to_owned());
        }
        r
    }

    /// The outside work the current phase asks for, with every path and
    /// URL fixed by the cache root, the scratch directory and the size.
    pub fn next_action(&self) -> (r: AcquisitionAction)
        requires
            self.wf(),
        ensures
            self.phase is AwaitingConfirmation ==> (r matches AcquisitionAction::Prompt { missing }
                && missing@.len() >= 1 && (self.need_transcription ==> missing@[0]@
                == spec_whisper_artifact_name(self.size)) && (self.need_diarization ==> missing@[
                missing@.len() - 1
            ]@ == spec_diarization_artifact_name()) && missing@.len() == (if self.need_transcription
                && self.need_diarization {
                2int
            } else {
                1int
            })),
            self.phase is TranscriptionDownload ==> (r matches AcquisitionAction::Download {
                url,
                destination,
            } && url@ == spec_whisper_model_url(self.size) && destination@
                == spec_whisper_model_path(self.cache_dir@, self.size)),
            self.phase is SegmentationDownload ==> (r matches AcquisitionAction::Download {
                url,
                destination,
            } && url@
                == "https://github.com/k2-fsa/sherpa-onnx/releases/download/speaker-segmentation-models/sherpa-onnx-pyannote-segmentation-3-0.tar.bz2"@
                && destination@ == spec_scratch_archive_path(self.scratch_dir@)),
            self.phase is SegmentationExtract ==> (r matches AcquisitionAction::Extract {
                archive,
                destination_dir,
            } && archive@ == spec_scratch_archive_path(self.scratch_dir@) && destination_dir@
                == spec_pyannote_model_dir(self.cache_dir@)),
            self.phase is EmbeddingDownload ==> (r matches AcquisitionAction::Download {
                url,
                destination,
            } && url@
                == "https://github.com/k2-fsa/sherpa-onnx/releases/download/speaker-recongition-models/3dspeaker_speech_eres2net_base_sv_zh-cn_3dspeaker_16k.onnx"@
                && destination@ == spec_embedding_model_path(self.cache_dir@)),
            self.phase is MarkerWrite ==> (r matches AcquisitionAction::WriteMarker {
                path,
                segmentation_path,
                embedding_path,
            } && path@ == spec_pyannote_marker_path(self.cache_dir@) && segmentation_path@
                == spec_segmentation_model_path(self.cache_dir@) && embedding_path@
                == spec_embedding_model_path(self.cache_dir@)),
            self.phase is Complete ==> r is Finished,
    {
        match &self.phase {
            AcquisitionPhase::AwaitingConfirmation => AcquisitionAction::Prompt {
                missing: self.missing_artifacts(),
            },
            AcquisitionPhase::TranscriptionDownload => AcquisitionAction::Download {
                url: whisper_model_url(&self.size),
                destination: get_whisper_model_path(self.cache_dir.as_str(), &self.size),
            },
            AcquisitionPhase::SegmentationDownload => AcquisitionAction::Download {
                url: segmentation_archive_url().to_owned(),
                destination: scratch_archive_path(self.scratch_dir.as_str()),
            },
            AcquisitionPhase::SegmentationExtract => AcquisitionAction::Extract {
                archive: scratch_archive_path(self.scratch_dir.as_str()),
                destination_dir: get_pyannote_model_dir(self.cache_dir.as_str()),
            },
            AcquisitionPhase::EmbeddingDownload => AcquisitionAction::Download {
                url: embedding_model_url().to_owned(),
                destination: get_speaker_embedding_model_path(self.cache_dir.as_str()),
            },
            AcquisitionPhase::MarkerWrite => AcquisitionAction::WriteMarker {
                path: get_pyannote_model_path(self.cache_dir.as_str()),
                segmentation_path: get_pyannote_segmentation_model_path(self.cache_dir.as_str()),
                embedding_path: get_speaker_embedding_model_path(self.cache_dir.as_str()),
            },
            AcquisitionPhase::Complete(_) => AcquisitionAction::Finished,
        }
    }
}

/// The display name of a missing transcription model.
pub open spec fn spec_whisper_artifact_name(size: ModelSize) -> Seq<char> {
    "Whisper "@ + size.spec_name() + " model"@
}

/// The display name of the missing diarization bundle.
pub open spec fn spec_diarization_artifact_name() -> Seq<char> {
    "Sherpa-ONNX speaker diarization models (segmentation + embedding)"@
}

/// `t` is `s` with its leading and trailing whitespace removed.
pub open spec fn spec_trimmed_to(s: Seq<char>, t: Seq<char>) -> bool {
    exists|i: int, j: int|
        {
            &&& 0 <= i <= j <= s.len()
            &&& t == s.subrange(i, j)
            &&& forall|k: int| 0 <= k < i ==> spec_is_space(s[k])
            &&& forall|k: int| j <= k < s.len() ==> spec_is_space(s[k])
            &&& (i < j ==> !spec_is_space(s[i]) && !spec_is_space(s[j - 1]))
            &&& (i == j ==> i == 0)
        }
}

/// The trimmed answer is `n` or `no`, case-insensitively: the only two
/// answers that decline an acquisition.
pub open spec fn spec_is_negative_answer(s: Seq<char>) -> bool {
    exists|t: Seq<char>|
        spec_trimmed_to(s, t) && ((t.len() == 1 && spec_eq_ci(t[0], 'n')) || (t.len() == 2
            && spec_eq_ci(t[0], 'n') && spec_eq_ci(t[1], 'o')))
}

fn first_non_space(s: &str, from: usize, n: usize) -> (r: usize)
    requires
        n == s@.len(),
        from <= n,
        forall|k: int| 0 <= k < from ==> spec_is_space(s@[k]),
    ensures
        from <= r <= n,
        forall|k: int| 0 <= k < r ==> spec_is_space(s@[k]),
        r < n ==> !spec_is_space(s@[r as int]),
    decreases n - from,
{
    if from == n {
        from
    } else {
        let c = s.get_char(from);
        if is_space_char(c) {
            first_non_space(s, from + 1, n)
        } else {
            from
        }
    }
}

fn last_non_space(s: &str, from: usize, until: usize) -> (r: usize)
    requires
        until <= s@.len(),
        from <= until,
        forall|k: int| until <= k < s@.len() ==> spec_is_space(s@[k]),
    ensures
        from <= r <= until,
        forall|k: int| r <= k < s@.len() ==> spec_is_space(s@[k]),
        r > from ==> !spec_is_space(s@[r - 1]),
    decreases until - from,
{
    if until == from {
        from
    } else {
        let c = s.get_char(until - 1);
        if is_space_char(c) {
            last_non_space(s, from, until - 1)
        } else {
            until
        }
    }
}

/// Whether an operator's answer declines the download: `n` or `no`,
/// case-insensitively, ignoring surrounding whitespace.  Every other
/// answer — the empty default included — is affirmative.
pub fn is_negative_answer(answer: &str) -> (r: bool)
    ensures
        r == spec_is_negative_answer(answer@),
{
    let n = answer.unicode_len();
    let i = first_non_space(answer, 0, n);
    let j = last_non_space(answer, i, n);
    let ghost s = answer@;
    let ghost ti: int = if i == j {
        0
    } else {
        i as int
    };
    let ghost t = s.subrange(ti, ti + (j - i) as int);
    proof {
        if i == j {
            assert(t =~= s.subrange(0, 0));
        }
        assert(spec_trimmed_to(s, t));
    }
    let r = if j - i == 1 {
        eq_ci_char(answer.get_char(i), 'n', 'N')
    } else if j - i == 2 {
        eq_ci_char(answer.get_char(i), 'n', 'N') && eq_ci_char(answer.get_char(i + 1), 'o', 'O')
    } else {
        false
    };
    proof {
        if r {
            assert(ti == i as int);
            assert(t.len() == j - i);
            assert(t[0] == s[i as int]);
            if j - i == 2 {
                assert(t[1] == s[i as int + 1]);
            }
            assert((t.len() == 1 && spec_eq_ci(t[0], 'n')) || (t.len() == 2 && spec_eq_ci(
                t[0],
                'n',
            ) && spec_eq_ci(t[1], 'o')));
            assert(spec_is_negative_answer(s));
        } else {
            assert forall|t2: Seq<char>| spec_trimmed_to(s, t2) implies t2 == t by {
                lemma_trimmed_unique(s, t, t2);
            }
        }
    }
    r
}

/// Trimming is a function: two trimmed forms of the same answer agree.
proof fn lemma_trimmed_unique(s: Seq<char>, t1: Seq<char>, t2: Seq<char>)
    requires
        spec_trimmed_to(s, t1),
        spec_trimmed_to(s, t2),
    ensures
        t1 == t2,
{
    let (i1, j1): (int, int) = choose|i: int, j: int|
        {
            &&& 0 <= i <= j <= s.len()
            &&& t1 == s.subrange(i, j)
            &&& forall|k: int| 0 <= k < i ==> spec_is_space(s[k])
            &&& forall|k: int| j <= k < s.len() ==> spec_is_space(s[k])
            &&& (i < j ==> !spec_is_space(s[i]) && !spec_is_space(s[j - 1]))
            &&& (i == j ==> i == 0)
        };
    let (i2, j2): (int, int) = choose|i: int, j: int|
        {
            &&& 0 <= i <= j <= s.len()
            &&& t2 == s.subrange(i, j)
            &&& forall|k: int| 0 <= k < i ==> spec_is_space(s[k])
            &&& forall|k: int| j <= k < s.len() ==> spec_is_space(s[k])
            &&& (i < j ==> !spec_is_space(s[i]) && !spec_is_space(s[j - 1]))
            &&& (i == j ==> i == 0)
        };
    if i1 < j1 && i2 < j2 {
        assert(i1 == i2 && j1 == j2);
    } else if i1 == j1 && i2 < j2 {
        assert(spec_is_space(s[i2]));
        assert(false);
    } else if i1 < j1 && i2 == j2 {
        assert(spec_is_space(s[i1]));
        assert(false);
    } else {
        assert(t1 =~= t2);
    }
}

} // verus!
