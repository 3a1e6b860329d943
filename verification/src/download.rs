//! Canonical cache layout, download sources, and the pure decisions of
//! the streaming downloader.
//!
//! Every artifact the pipeline needs maps to exactly one path under the
//! cache root; the mapping is a pure function of the root and the model
//! identity, which is what makes re-running the availability check
//! idempotent.  The functions here compute those paths, the URLs the
//! artifacts are fetched from, and the accept/reject decisions taken
//! during a download.  The actual network and filesystem work is done by
//! an unverified shell that calls back into these functions.

use vstd::prelude::*;

use crate::ModelSize;
use crate::error::AudioTranscriptionError;

verus! {

/// `t` occurs in `s` starting at index `i`.
pub open spec fn spec_has_substring_at(s: Seq<char>, t: Seq<char>, i: int) -> bool {
    0 <= i && i + t.len() <= s.len() && s.subrange(i, i + t.len() as int) == t
}

/// `t` occurs somewhere in `s`.
pub open spec fn spec_contains_seq(s: Seq<char>, t: Seq<char>) -> bool {
    exists|i: int| spec_has_substring_at(s, t, i)
}

/// The file name of a transcription model: `ggml-<size>.bin`.
pub open spec fn spec_whisper_model_file(size: ModelSize) -> Seq<char> {
    "ggml-"@ + size.spec_name() + ".bin"@
}

/// `<root>/whisper/<size>`.
pub open spec fn spec_whisper_model_dir(cache_dir: Seq<char>, size: ModelSize) -> Seq<char> {
    cache_dir + "/whisper/"@ + size.spec_name()
}

/// `<root>/whisper/<size>/ggml-<size>.bin`.
pub open spec fn spec_whisper_model_path(cache_dir: Seq<char>, size: ModelSize) -> Seq<char> {
    spec_whisper_model_dir(cache_dir, size) + "/"@ + spec_whisper_model_file(size)
}

/// `<root>/pyannote`.
pub open spec fn spec_pyannote_model_dir(cache_dir: Seq<char>) -> Seq<char> {
    cache_dir + "/pyannote"@
}

/// `<root>/pyannote/setup_complete.txt`.
pub open spec fn spec_pyannote_marker_path(cache_dir: Seq<char>) -> Seq<char> {
    spec_pyannote_model_dir(cache_dir) + "/setup_complete.txt"@
}

/// `<root>/pyannote/sherpa-onnx-pyannote-segmentation-3-0/model.onnx`.
pub open spec fn spec_segmentation_model_path(cache_dir: Seq<char>) -> Seq<char> {
    spec_pyannote_model_dir(cache_dir) + "/sherpa-onnx-pyannote-segmentation-3-0/model.onnx"@
}

/// `<root>/pyannote/3dspeaker_speech_eres2net_base_sv_zh-cn_3dspeaker_16k.onnx`.
pub open spec fn spec_embedding_model_path(cache_dir: Seq<char>) -> Seq<char> {
    spec_pyannote_model_dir(cache_dir) + "/3dspeaker_speech_eres2net_base_sv_zh-cn_3dspeaker_16k.onnx"@
}

/// Full path to a whisper model file.
pub fn get_whisper_model_path(cache_dir: &str, size: &ModelSize) -> (r: String)
    ensures
        r@ == spec_whisper_model_path(cache_dir@, *size),
{
    let mut r = cache_dir.to_owned();
    r.append("/whisper/");
    r.append(size.as_str());
    r.append("/");
    r.append("ggml-");
    r.append(size.as_str());
    r.append(".bin");
    proof {
        assert(r@ =~= spec_whisper_model_path(cache_dir@, *size));
    }
    r
}

/// The pyannote model directory.
pub fn get_pyannote_model_dir(cache_dir: &str) -> (r: String)
    ensures
        r@ == spec_pyannote_model_dir(cache_dir@),
{
    let mut r = cache_dir.to_owned();
    r.append("/pyannote");
    r
}

/// Full path to the pyannote setup marker file.
pub fn get_pyannote_model_path(cache_dir: &str) -> (r: String)
    ensures
        r@ == spec_pyannote_marker_path(cache_dir@),
{
    let mut r = get_pyannote_model_dir(cache_dir);
    r.append("/setup_complete.txt");
    proof {
        assert(r@ =~= spec_pyannote_marker_path(cache_dir@));
    }
    r
}

/// Full path to the pyannote segmentation model.  The directory name is
/// fixed because the upstream archive always extracts to it.
pub fn get_pyannote_segmentation_model_path(cache_dir: &str) -> (r: String)
    ensures
        r@ == spec_segmentation_model_path(cache_dir@),
{
    let mut r = get_pyannote_model_dir(cache_dir);
    r.append("/sherpa-onnx-pyannote-segmentation-3-0/model.onnx");
    proof {
        assert(r@ =~= spec_segmentation_model_path(cache_dir@));
    }
    r
}

/// Full path to the speaker embedding model.
pub fn get_speaker_embedding_model_path(cache_dir: &str) -> (r: String)
    ensures
        r@ == spec_embedding_model_path(cache_dir@),
{
    let mut r = get_pyannote_model_dir(cache_dir);
    r.append("/3dspeaker_speech_eres2net_base_sv_zh-cn_3dspeaker_16k.onnx");
    proof {
        assert(r@ =~= spec_embedding_model_path(cache_dir@));
    }
    r
}

/// The download URL for a whisper model of the given size.
pub open spec fn spec_whisper_model_url(size: ModelSize) -> Seq<char> {
    "https://huggingface.co/ggerganov/whisper.cpp/resolve/main/"@ + spec_whisper_model_file(size)
}

pub fn whisper_model_url(size: &ModelSize) -> (r: String)
    ensures
        r@ == spec_whisper_model_url(*size),
{
    let mut r = "https://huggingface.co/ggerganov/whisper.cpp/resolve/main/".to_owned();
    r.append("ggml-");
    r.append(size.as_str());
    r.append(".bin");
    proof {
        assert(r@ =~= spec_whisper_model_url(*size));
    }
    r
}

/// The fixed release URL of the segmentation model archive.
pub fn segmentation_archive_url() -> (r: &'static str)
    ensures
        r@ == "https://github.com/k2-fsa/sherpa-onnx/releases/download/speaker-segmentation-models/sherpa-onnx-pyannote-segmentation-3-0.tar.bz2"@,
{
    "https://github.com/k2-fsa/sherpa-onnx/releases/download/speaker-segmentation-models/sherpa-onnx-pyannote-segmentation-3-0.tar.bz2"
}

/// The fixed release URL of the speaker embedding model.
pub fn embedding_model_url() -> (r: &'static str)
    ensures
        r@ == "https://github.com/k2-fsa/sherpa-onnx/releases/download/speaker-recongition-models/3dspeaker_speech_eres2net_base_sv_zh-cn_3dspeaker_16k.onnx"@,
{
    "https://github.com/k2-fsa/sherpa-onnx/releases/download/speaker-recongition-models/3dspeaker_speech_eres2net_base_sv_zh-cn_3dspeaker_16k.onnx"
}

/// Where the compressed segmentation archive is parked before extraction.
pub open spec fn spec_scratch_archive_path(scratch_dir: Seq<char>) -> Seq<char> {
    scratch_dir + "/pyannote-segmentation.tar.bz2"@
}

pub fn scratch_archive_path(scratch_dir: &str) -> (r: String)
    ensures
        r@ == spec_scratch_archive_path(scratch_dir@),
{
    let mut r = scratch_dir.to_owned();
    r.append("/pyannote-segmentation.tar.bz2");
    r
}

/// An HTTP status in the 2xx range counts as success.
pub open spec fn spec_status_success(status: u16) -> bool {
    200 <= status < 300
}

/// The accept/reject decision on a response status: anything outside the
/// 2xx range aborts the download with a network error naming the status.
pub fn classify_http_status(status: u16) -> (r: Result<(), AudioTranscriptionError>)
    ensures
        r is Ok <==> spec_status_success(status),
        r is Err ==> (r->Err_0 matches AudioTranscriptionError::Network(m) && m@ == "HTTP status "@
            + crate::numfmt::spec_dec(status as nat)),
{
    if 200 <= status && status < 300 {
        Ok(())
    } else {
        let mut m = "HTTP status ".to_owned();
        let d = crate::numfmt::u64_to_string(status as u64);
        m.append(d.as_str());
        Err(AudioTranscriptionError::Network(m))
    }
}

/// The decision taken after the body has been written: a zero-byte
/// artifact is rejected, so a truncated error page is never mistaken for
/// a model file.
pub fn validate_artifact_size(len: u64) -> (r: Result<(), AudioTranscriptionError>)
    ensures
        r is Ok <==> len > 0,
        r is Err ==> (r->Err_0 matches AudioTranscriptionError::EmptyArtifact(m) && m@
            == "Downloaded model file is empty"@),
{
    if len > 0 {
        Ok(())
    } else {
        Err(AudioTranscriptionError::EmptyArtifact("Downloaded model file is empty".to_owned()))
    }
}

/// The decision taken on the extraction tool's exit: a non-zero status
/// aborts with an extraction error carrying the tool's diagnostics.
pub fn classify_extract_exit(success: bool, diagnostics: &str) -> (r: Result<
    (),
    AudioTranscriptionError,
>)
    ensures
        r is Ok <==> success,
        r is Err ==> (r->Err_0 matches AudioTranscriptionError::Extract(m) && m@
            == "Failed to extract archive: "@ + diagnostics@),
{
    if success {
        Ok(())
    } else {
        let mut m = "Failed to extract archive: ".to_owned();
        m.append(diagnostics);
        Err(AudioTranscriptionError::Extract(m))
    }
}

/// The text of the completion marker: a human-readable note carrying the
/// timestamp and the two resolved model paths.
pub open spec fn spec_marker_content(
    timestamp: Seq<char>,
    segmentation_path: Seq<char>,
    embedding_path: Seq<char>,
) -> Seq<char> {
    "Sherpa-ONNX diarization setup completed at: "@ + timestamp
        + "\nSegmentation model: sherpa-onnx-pyannote-segmentation-3-0\nEmbedding model: 3dspeaker_speech_eres2net_base_sv_zh-cn_3dspeaker_16k\n\nModels are ready for speaker diarization using sherpa-onnx.\nSegmentation model: "@
        + segmentation_path + "\nEmbedding model: "@ + embedding_path + "\n"@
}

pub fn marker_content(timestamp: &str, segmentation_path: &str, embedding_path: &str) -> (r:
    String)
    ensures
        r@ == spec_marker_content(timestamp@, segmentation_path@, embedding_path@),
{
    let mut r = "Sherpa-ONNX diarization setup completed at: ".to_owned();
    r.append(timestamp);
    r.append(
        "\nSegmentation model: sherpa-onnx-pyannote-segmentation-3-0\nEmbedding model: 3dspeaker_speech_eres2net_base_sv_zh-cn_3dspeaker_16k\n\nModels are ready for speaker diarization using sherpa-onnx.\nSegmentation model: ",
    );
    r.append(segmentation_path);
    r.append("\nEmbedding model: ");
    r.append(embedding_path);
    r.append("\n");
    proof {
        assert(r@ =~= spec_marker_content(timestamp@, segmentation_path@, embedding_path@));
    }
    r
}

/// The completion marker records both resolved model paths verbatim.
pub proof fn lemma_marker_contains_paths(
    timestamp: Seq<char>,
    segmentation_path: Seq<char>,
    embedding_path: Seq<char>,
)
    ensures
        spec_contains_seq(
            spec_marker_content(timestamp, segmentation_path, embedding_path),
            segmentation_path,
        ),
        spec_contains_seq(
            spec_marker_content(timestamp, segmentation_path, embedding_path),
            embedding_path,
        ),
{
    let c = spec_marker_content(timestamp, segmentation_path, embedding_path);
    let i = "Sherpa-ONNX diarization setup completed at: "@.len() + timestamp.len()
        + "\nSegmentation model: sherpa-onnx-pyannote-segmentation-3-0\nEmbedding model: 3dspeaker_speech_eres2net_base_sv_zh-cn_3dspeaker_16k\n\nModels are ready for speaker diarization using sherpa-onnx.\nSegmentation model: "@.len();
    assert(c.subrange(i as int, i + segmentation_path.len() as int) =~= segmentation_path);
    assert(spec_has_substring_at(c, segmentation_path, i as int));
    let j = i + segmentation_path.len() + "\nEmbedding model: "@.len();
    assert(c.subrange(j as int, j + embedding_path.len() as int) =~= embedding_path);
    assert(spec_has_substring_at(c, embedding_path, j as int));
}

/// The whisper path for a size is a fixed function of the cache root and
/// the size alone, so repeated computations agree; it ends with the model
/// file name `ggml-<size>.bin`, and both `whisper` and the size name
/// appear in it as path segments.
pub proof fn lemma_whisper_path_shape(cache_dir: Seq<char>, size: ModelSize)
    ensures
        spec_has_substring_at(
            spec_whisper_model_path(cache_dir, size),
            spec_whisper_model_file(size),
            spec_whisper_model_path(cache_dir, size).len() - spec_whisper_model_file(size).len(),
        ),
        spec_contains_seq(spec_whisper_model_path(cache_dir, size), "/whisper/"@),
        spec_contains_seq(
            spec_whisper_model_path(cache_dir, size),
            "/"@ + size.spec_name() + "/"@,
        ),
{
    reveal_strlit("/whisper/");
    reveal_strlit("/");
    let p = spec_whisper_model_path(cache_dir, size);
    let file = spec_whisper_model_file(size);
    assert(p.subrange(p.len() - file.len(), p.len() as int) =~= file);
    assert(spec_has_substring_at(p, file, p.len() - file.len()));
    let i = cache_dir.len() as int;
    assert(p.subrange(i, i + "/whisper/"@.len() as int) =~= "/whisper/"@);
    assert(spec_has_substring_at(p, "/whisper/"@, i));
    let seg = "/"@ + size.spec_name() + "/"@;
    let j = cache_dir.len() + "/whisper/"@.len() - 1;
    assert(p.subrange(j as int, j + seg.len() as int) =~= seg);
    assert(spec_has_substring_at(p, seg, j as int));
}

} // verus!
