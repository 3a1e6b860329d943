//! Deriving the transcript output path and formatting the transcript.
//!
//! Paths are plain strings with `/` as the separator.  The output path
//! replaces the input file's extension with `.txt`, in the configured
//! output directory when one is set, otherwise next to the input file.
//! Writing the file is left to the unverified shell.

use vstd::prelude::*;

use crate::chars::{last_index_upto, lemma_last_index_char, spec_last_index_of};
use crate::error::AudioTranscriptionError;
use crate::numfmt::{spec_dec2, u64_to_string2};

verus! {

/// The file-name part of a path: everything after the last `/`.
pub open spec fn spec_file_name(s: Seq<char>) -> Seq<char> {
    s.subrange(spec_last_index_of(s, '/') + 1, s.len() as int)
}

/// The stem of a file name: everything before the last `.`, unless the
/// only `.` starts the name (a hidden file keeps its full name).
pub open spec fn spec_file_stem(name: Seq<char>) -> Seq<char> {
    let d = spec_last_index_of(name, '.');
    if d > 0 {
        name.subrange(0, d)
    } else {
        name
    }
}

/// The transcript path for an input path: the input's stem with `.txt`
/// appended, placed in the output directory when one is configured,
/// otherwise in the input's own directory.
pub open spec fn spec_output_path(output_dir: Option<Seq<char>>, input: Seq<char>) -> Seq<char> {
    let stem = spec_file_stem(spec_file_name(input));
    match output_dir {
        Option::Some(d) => d + "/"@ + stem + ".txt"@,
        Option::None => input.subrange(0, spec_last_index_of(input, '/') + 1) + stem + ".txt"@,
    }
}

/// One line of transcribed speech with its (optional) speaker.
#[derive(Debug, Clone)]
pub struct TranscriptSegment {
    /// The speaker assigned by diarization, if any.
    pub speaker: Option<u8>,
    /// The transcribed text.
    pub text: String,
}

/// The header line introducing a speaker: `[SPEAKER_<id>]` with the id
/// zero padded to two digits (an unassigned speaker reads as zero).
pub open spec fn spec_speaker_label(speaker: Option<u8>) -> Seq<char> {
    let id: nat = match speaker {
        Option::Some(v) => v as nat,
        Option::None => 0,
    };
    "[SPEAKER_"@ + spec_dec2(id) + "]\n"@
}

/// The formatted transcript from segment `i` on, given the speaker the
/// previous segment had: a header whenever the speaker changes, with a
/// blank line between speakers, then each segment's text on its own line.
pub open spec fn spec_transcript_from(
    segments: Seq<TranscriptSegment>,
    i: int,
    current: Option<u8>,
) -> Seq<char>
    decreases segments.len() - i,
{
    if i < 0 || i >= segments.len() {
        Seq::<char>::empty()
    } else {
        let sg = segments[i];
        let head = if sg.speaker != current {
            (if current is Some {
                "\n"@
            } else {
                Seq::<char>::empty()
            }) + spec_speaker_label(sg.speaker)
        } else {
            Seq::<char>::empty()
        };
        head + sg.text@ + "\n"@ + spec_transcript_from(segments, i + 1, sg.speaker)
    }
}

/// What models produced a transcript, recorded alongside it.
#[derive(Debug, Clone)]
pub struct ModelInfo {
    /// The transcription model's size name.
    pub whisper_model: String,
    /// The diarization model family.
    pub diarization_model: String,
    /// How long processing took, in milliseconds.
    pub processing_time: u64,
}

/// A generator fixed to one (optional) output directory.
pub struct TranscriptGenerator {
    /// Where transcripts go; `None` places them next to their input.
    pub output_dir: Option<String>,
}

impl TranscriptGenerator {
    pub fn new(output_dir: Option<String>) -> (r: TranscriptGenerator)
        ensures
            r.output_dir == output_dir,
    {
        TranscriptGenerator { output_dir }
    }

    pub fn set_output_dir(&mut self, output_dir: Option<String>)
        ensures
            final(self).output_dir == output_dir,
    {
        self.output_dir = output_dir;
    }

    pub fn output_dir(&self) -> (r: Option<&String>)
        ensures
            r is Some <==> self.output_dir is Some,
            r matches Some(p) ==> (self.output_dir matches Some(v) && p@ == v@),
    {
        self.output_dir.as_ref()
    }

    /// Compute where the transcript of `input_path` goes.  Fails exactly
    /// when the input path has no file name (it is empty or ends in `/`).
    pub fn determine_output_path(&self, input_path: &str) -> (r: Result<
        String,
        AudioTranscriptionError,
    >)
        ensures
            r is Ok <==> spec_file_name(input_path@).len() > 0,
            r matches Ok(p) ==> p@ == spec_output_path(
                match self.output_dir {
                    Option::Some(d) => Option::Some(d@),
                    Option::None => Option::None,
                },
                input_path@,
            ),
            r matches Err(e) ==> (e matches AudioTranscriptionError::Configuration(m) && m@
                == "Invalid input file path"@),
    {
        let n = input_path.unicode_len();
        let slash = last_index_upto(input_path, n, '/');
        let name_start: usize = match slash {
            Some(i) => i + 1,
            None => 0,
        };
        proof {
            lemma_last_index_char(
                input_path@,
                '/',
                match slash {
                    Option::Some(i) => i as int,
                    Option::None => -1,
                },
            );
        }
        if name_start == n {
            return Err(
                AudioTranscriptionError::Configuration("Invalid input file path".to_owned()),
            );
        }
        let name = input_path.substring_char(name_start, n);
        let name_len = n - name_start;
        let dot = last_index_upto(name, name_len, '.');
        proof {
            lemma_last_index_char(
                name@,
                '.',
                match dot {
                    Option::Some(i) => i as int,
                    Option::None => -1,
                },
            );
        }
        let stem = match dot {
            Some(d) if d > 0 => name.substring_char(0, d),
            _ => name,
        };
        let mut r: String;
        match &self.output_dir {
            Option::Some(d) => {
                r = d.clone();
                r.append("/");
            },
            Option::None => {
                r = input_path.substring_char(0, name_start).to_owned();
            },
        }
        r.append(stem);
        r.append(".txt");
        proof {
            assert(r@ =~= spec_output_path(
                match self.output_dir {
                    Option::Some(d) => Option::Some(d@),
                    Option::None => Option::None,
                },
                input_path@,
            ));
        }
        Ok(r)
    }

    /// Format the transcript: a `[SPEAKER_..]` header whenever the
    /// speaker changes (with a blank line between speakers), then each
    /// segment's text on its own line.  Formatting never fails.
    pub fn format_transcript(&self, segments: &Vec<TranscriptSegment>) -> (r: Result<
        String,
        AudioTranscriptionError,
    >)
        ensures
            r is Ok,
            r matches Ok(t) ==> t@ == spec_transcript_from(segments@, 0, Option::None),
    {
        let mut out = String::new();
        let mut current: Option<u8> = None;
        let mut i: usize = 0;
        while i < segments.len()
            invariant
                i <= segments.len(),
                spec_transcript_from(segments@, 0, Option::None) == out@ + spec_transcript_from(
                    segments@,
                    i as int,
                    current,
                ),
            decreases segments.len() - i,
        {
            let sg = &segments[i];
            let changed = match (&sg.speaker, &current) {
                (Option::Some(a), Option::Some(b)) => *a != *b,
                (Option::None, Option::None) => false,
                _ => true,
            };
            if changed {
                if current.is_some() {
                    out.append("\n");
                }
                out.append("[SPEAKER_");
                let id: u8 = match &sg.speaker {
                    Option::Some(v) => *v,
                    Option::None => 0,
                };
                out.append(u64_to_string2(id as u64).as_str());
                out.append("]\n");
            }
            out.append(sg.text.as_str());
            out.append("\n");
            current = sg.speaker;
            proof {
                assert(spec_transcript_from(segments@, 0, Option::None) == out@
                    + spec_transcript_from(segments@, i + 1, current));
            }
            i = i + 1;
        }
        Ok(out)
    }
}

} // verus!
