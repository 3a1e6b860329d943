//! Progress accounting for the processing pipeline.
//!
//! Times are carried as whole milliseconds.  The wall clock is read
//! through one trusted function; everything computed from a reading is
//! verified, with the reading passed in as a plain value.

use vstd::prelude::*;

use crate::numfmt::{spec_dec, spec_dec2, spec_digit, u64_to_string, u64_to_string2};

verus! {

/// The stages an audio file moves through.
#[derive(Debug, Clone, PartialEq, Eq, Structural)]
pub enum ProcessingStage {
    VAD,
    Chunking,
    Transcription,
    Diarization,
    Merging,
    Complete,
}

impl ProcessingStage {
    /// The stage's display name.
    pub open spec fn spec_name(self) -> Seq<char> {
        match self {
            ProcessingStage::VAD => "Voice Activity Detection"@,
            ProcessingStage::Chunking => "Audio Chunking"@,
            ProcessingStage::Transcription => "Transcription"@,
            ProcessingStage::Diarization => "Speaker Diarization"@,
            ProcessingStage::Merging => "Merging Results"@,
            ProcessingStage::Complete => "Complete"@,
        }
    }

    pub fn as_str(&self) -> (r: &'static str)
        ensures
            r@ == self.spec_name(),
    {
        match self {
            ProcessingStage::VAD => "Voice Activity Detection",
            ProcessingStage::Chunking => "Audio Chunking",
            ProcessingStage::Transcription => "Transcription",
            ProcessingStage::Diarization => "Speaker Diarization",
            ProcessingStage::Merging => "Merging Results",
            ProcessingStage::Complete => "Complete",
        }
    }

    pub fn to_string(&self) -> (r: String)
        ensures
            r@ == self.spec_name(),
    {
        self.as_str().to_owned()
    }
}

/// Relies on `std::time::SystemTime::now`: milliseconds since the Unix
/// epoch, saturated to zero when the clock reads earlier than the epoch.
/// The result depends on the wall clock, so nothing is promised of it.
#[verifier::external_body]
fn now_millis() -> u64 {
    match std::time::SystemTime::now().duration_since(std::time::UNIX_EPOCH) {
        Ok(d) => d.as_millis() as u64,
        Err(_) => 0,
    }
}

pub struct ProgressDisplay {
    /// The stage currently running.
    pub current_stage: ProcessingStage,
    /// How many chunks the current stage has in total.
    pub total_chunks: usize,
    /// How many chunks the current stage has finished.
    pub completed_chunks: usize,
    /// The clock reading (milliseconds) the display was created at.
    pub start_millis: u64,
}

/// The progress part of a rendered line: empty until a total is known,
/// then ` (<completed>/<total> - <percent>%)` with one decimal.
pub open spec fn spec_progress_part(d: ProgressDisplay) -> Seq<char> {
    if d.total_chunks > 0 {
        let tenths = d.completed_chunks * 1000 / (d.total_chunks as int);
        " ("@ + spec_dec(d.completed_chunks as nat) + "/"@ + spec_dec(d.total_chunks as nat)
            + " - "@ + spec_dec((tenths / 10) as nat) + "."@ + seq![spec_digit(tenths % 10)]
            + "%)"@
    } else {
        Seq::<char>::empty()
    }
}

/// A full rendered line for an elapsed time of `elapsed_ms`:
/// `Stage: <stage><progress> | Elapsed: <m>:<ss>`.
pub open spec fn spec_render_at(d: ProgressDisplay, elapsed_ms: u64) -> Seq<char> {
    let secs = elapsed_ms / 1000;
    "Stage: "@ + d.current_stage.spec_name() + spec_progress_part(d) + " | Elapsed: "@ + spec_dec(
        (secs / 60) as nat,
    ) + ":"@ + spec_dec2((secs % 60) as nat)
}

/// The remaining-time estimate for an elapsed time of `elapsed_ms`:
/// the elapsed average per finished chunk times the unfinished chunks,
/// saturated to `u64::MAX`.
pub open spec fn spec_estimate_at(d: ProgressDisplay, elapsed_ms: u64) -> u64 {
    let est = elapsed_ms * (d.total_chunks - d.completed_chunks) / (d.completed_chunks as int);
    if est > u64::MAX {
        u64::MAX
    } else {
        est as u64
    }
}

impl ProgressDisplay {
    /// A fresh display: first stage, no chunks, started now.
    pub fn new() -> (r: ProgressDisplay)
        ensures
            r.current_stage == ProcessingStage::VAD,
            r.total_chunks == 0,
            r.completed_chunks == 0,
    {
        ProgressDisplay {
            current_stage: ProcessingStage::VAD,
            total_chunks: 0,
            completed_chunks: 0,
            start_millis: now_millis(),
        }
    }

    pub fn set_stage(&mut self, stage: ProcessingStage)
        ensures
            final(self).current_stage == stage,
            final(self).total_chunks == old(self).total_chunks,
            final(self).completed_chunks == old(self).completed_chunks,
            final(self).start_millis == old(self).start_millis,
    {
        self.current_stage = stage;
    }

    pub fn update_progress(&mut self, completed: usize, total: usize)
        ensures
            final(self).completed_chunks == completed,
            final(self).total_chunks == total,
            final(self).current_stage == old(self).current_stage,
            final(self).start_millis == old(self).start_millis,
    {
        self.completed_chunks = completed;
        self.total_chunks = total;
    }

    pub fn current_stage(&self) -> (r: &ProcessingStage)
        ensures
            r == &self.current_stage,
    {
        &self.current_stage
    }

    /// Milliseconds since the display was created, by the wall clock;
    /// zero if the clock moved backwards.
    pub fn elapsed_time(&self) -> u64 {
        let now = now_millis();
        if now >= self.start_millis {
            now - self.start_millis
        } else {
            0
        }
    }

    /// Render the status line for a given elapsed time.
    pub fn render_at(&self, elapsed_ms: u64) -> (r: String)
        requires
            self.completed_chunks <= self.total_chunks,
        ensures
            r@ == spec_render_at(*self, elapsed_ms),
    {
        let mut r = "Stage: ".to_owned();
        r.append(self.current_stage.as_str());
        if self.total_chunks > 0 {
            let c = self.completed_chunks as u128;
            let t = self.total_chunks as u128;
            proof {
                assert(c * 1000 <= t * 1000 < u128::MAX) by (nonlinear_arith)
                    requires
                        c <= t,
                        t <= u64::MAX,
                ;
                assert(c * 1000 / (t as int) <= 1000) by (nonlinear_arith)
                    requires
                        c <= t,
                        0 < t,
                ;
            }
            let tenths: u128 = c * 1000 / t;
            r.append(" (");
            r.append(u64_to_string(self.completed_chunks as u64).as_str());
            r.append("/");
            r.append(u64_to_string(self.total_chunks as u64).as_str());
            r.append(" - ");
            r.append(u64_to_string((tenths / 10) as u64).as_str());
            r.append(".");
            r.append(u64_to_string((tenths % 10) as u64).as_str());
            r.append("%)");
        }
        let secs = elapsed_ms / 1000;
        r.append(" | Elapsed: ");
        r.append(u64_to_string(secs / 60).as_str());
        r.append(":");
        r.append(u64_to_string2(secs % 60).as_str());
        proof {
            assert(r@ =~= spec_render_at(*self, elapsed_ms));
        }
        r
    }

    /// Render the status line against the wall clock.  The elapsed part
    /// depends on the clock, so only the shape is promised: the line is
    /// the rendering for some elapsed time.
    pub fn render(&self) -> (r: String)
        requires
            self.completed_chunks <= self.total_chunks,
        ensures
            exists|elapsed_ms: u64| r@ == spec_render_at(*self, elapsed_ms),
    {
        let elapsed = self.elapsed_time();
        let r = self.render_at(elapsed);
        proof {
            assert(r@ == spec_render_at(*self, elapsed));
        }
        r
    }

    /// Estimate the remaining time for a given elapsed time: defined
    /// exactly when at least one chunk is finished and some are not.
    pub fn estimate_remaining_at(&self, elapsed_ms: u64) -> (r: Option<u64>)
        ensures
            r is Some <==> (self.completed_chunks > 0 && self.total_chunks
                > self.completed_chunks),
            r matches Some(v) ==> v == spec_estimate_at(*self, elapsed_ms),
    {
        if self.completed_chunks > 0 && self.total_chunks > self.completed_chunks {
            let remaining = (self.total_chunks - self.completed_chunks) as u128;
            proof {
                assert(elapsed_ms as u128 * remaining < u128::MAX) by (nonlinear_arith)
                    requires
                        elapsed_ms <= u64::MAX,
                        remaining <= u64::MAX,
                ;
            }
            let est = elapsed_ms as u128 * remaining / (self.completed_chunks as u128);
            if est > u64::MAX as u128 {
                Some(u64::MAX)
            } else {
                Some(est as u64)
            }
        } else {
            None
        }
    }

    /// Estimate the remaining time against the wall clock.
    pub fn estimate_remaining(&self) -> (r: Option<u64>)
        ensures
            r is Some <==> (self.completed_chunks > 0 && self.total_chunks
                > self.completed_chunks),
    {
        let elapsed = self.elapsed_time();
        self.estimate_remaining_at(elapsed)
    }
}

impl Default for ProgressDisplay {
    fn default() -> (r: ProgressDisplay)
        ensures
            r.current_stage == ProcessingStage::VAD,
            r.total_chunks == 0,
            r.completed_chunks == 0,
    {
        ProgressDisplay::new()
    }
}

} // verus!
