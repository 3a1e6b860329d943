use audio_transcribe::numfmt::{u64_to_string, u64_to_string2};
use audio_transcribe::progress::{ProcessingStage, ProgressDisplay};

#[test]
fn test_stage_names() {
    assert_eq!(ProcessingStage::VAD.to_string(), "Voice Activity Detection");
    assert_eq!(ProcessingStage::Chunking.to_string(), "Audio Chunking");
    assert_eq!(ProcessingStage::Transcription.to_string(), "Transcription");
    assert_eq!(ProcessingStage::Diarization.to_string(), "Speaker Diarization");
    assert_eq!(ProcessingStage::Merging.to_string(), "Merging Results");
    assert_eq!(ProcessingStage::Complete.to_string(), "Complete");
}

#[test]
fn test_progress_render() {
    let mut d = ProgressDisplay::new();
    assert!(matches!(d.current_stage(), ProcessingStage::VAD));
    d.set_stage(ProcessingStage::Transcription);
    d.update_progress(3, 10);
    let line = d.render_at(754_000);
    assert_eq!(line, "Stage: Transcription (3/10 - 30.0%) | Elapsed: 12:34");
    d.update_progress(0, 0);
    let line = d.render_at(59_999);
    assert_eq!(line, "Stage: Transcription | Elapsed: 0:59");
}

#[test]
fn test_progress_render_fractional_percent() {
    let mut d = ProgressDisplay::new();
    d.set_stage(ProcessingStage::Merging);
    d.update_progress(1, 3);
    // 1/3 shows as 33.3%, truncated at one decimal.
    let line = d.render_at(0);
    assert_eq!(line, "Stage: Merging Results (1/3 - 33.3%) | Elapsed: 0:00");
}

#[test]
fn test_estimate_remaining() {
    let mut d = ProgressDisplay::new();
    // No chunk finished yet: no estimate.
    assert!(d.estimate_remaining_at(1000).is_none());
    d.update_progress(2, 6);
    // Two of six in 1000 ms: four more at 500 ms each.
    assert_eq!(d.estimate_remaining_at(1000), Some(2000));
    d.update_progress(6, 6);
    // Nothing left to do: no estimate.
    assert!(d.estimate_remaining_at(1000).is_none());
    assert!(d.estimate_remaining().is_none());
}

#[test]
fn test_elapsed_time_monotone() {
    let d = ProgressDisplay::new();
    let first = d.elapsed_time();
    let second = d.elapsed_time();
    assert!(second >= first || second == 0);
}

#[test]
fn test_progress_default() {
    let d = ProgressDisplay::default();
    assert!(matches!(d.current_stage(), ProcessingStage::VAD));
    assert!(d.estimate_remaining_at(10).is_none());
}

#[test]
fn test_decimal_rendering() {
    assert_eq!(u64_to_string(0), "0");
    assert_eq!(u64_to_string(7), "7");
    assert_eq!(u64_to_string(10), "10");
    assert_eq!(u64_to_string(123456789), "123456789");
    assert_eq!(u64_to_string(u64::MAX), "18446744073709551615");
    assert_eq!(u64_to_string2(5), "05");
    assert_eq!(u64_to_string2(0), "00");
    assert_eq!(u64_to_string2(99), "99");
    assert_eq!(u64_to_string2(123), "123");
}
