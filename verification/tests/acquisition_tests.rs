use audio_transcribe::acquisition::{
    is_negative_answer, AcquisitionAction, AcquisitionOutcome, AcquisitionPhase, ModelAcquisition,
};
use audio_transcribe::download::{classify_http_status, validate_artifact_size};
use audio_transcribe::error::AudioTranscriptionError;
use audio_transcribe::ModelSize;

fn start_missing_both() -> ModelAcquisition {
    ModelAcquisition::start(
        "/cache".to_string(),
        "/tmp".to_string(),
        ModelSize::Medium,
        false,
        false,
    )
}

#[test]
fn test_idempotent_fast_path() {
    // Both artifacts present: the run completes at once, with no prompt,
    // no download and no write asked of the shell.
    let m = ModelAcquisition::start(
        "/cache".to_string(),
        "/tmp".to_string(),
        ModelSize::Medium,
        true,
        true,
    );
    assert!(matches!(
        m.phase,
        AcquisitionPhase::Complete(AcquisitionOutcome::Available)
    ));
    assert!(matches!(m.next_action(), AcquisitionAction::Finished));
}

#[test]
fn test_prompt_lists_missing_artifacts() {
    let m = start_missing_both();
    assert!(matches!(m.phase, AcquisitionPhase::AwaitingConfirmation));
    match m.next_action() {
        AcquisitionAction::Prompt { missing } => {
            assert_eq!(missing.len(), 2);
            assert_eq!(missing[0], "Whisper medium model");
            assert_eq!(
                missing[1],
                "Sherpa-ONNX speaker diarization models (segmentation + embedding)"
            );
        }
        other => panic!("expected prompt, got {:?}", other),
    }
}

#[test]
fn test_decline_completes_without_work() {
    for answer in ["n", "N", "no", "NO", " No ", "\tn\n"] {
        let mut m = start_missing_both();
        m.confirm(answer);
        assert!(
            matches!(m.phase, AcquisitionPhase::Complete(AcquisitionOutcome::Declined)),
            "answer {:?} should decline",
            answer
        );
        assert!(matches!(m.next_action(), AcquisitionAction::Finished));
    }
}

#[test]
fn test_negative_answers() {
    assert!(is_negative_answer("n"));
    assert!(is_negative_answer("No"));
    assert!(is_negative_answer("  nO  "));
    assert!(!is_negative_answer(""));
    assert!(!is_negative_answer("y"));
    assert!(!is_negative_answer("yes"));
    assert!(!is_negative_answer("nope"));
    assert!(!is_negative_answer("non"));
}

#[test]
fn test_full_acquisition_flow() {
    // Empty cache root, operator presses return (the affirmative default).
    let mut m = start_missing_both();
    m.confirm("");

    match m.next_action() {
        AcquisitionAction::Download { url, destination } => {
            assert_eq!(
                url,
                "https://huggingface.co/ggerganov/whisper.cpp/resolve/main/ggml-medium.bin"
            );
            assert_eq!(destination, "/cache/whisper/medium/ggml-medium.bin");
        }
        other => panic!("expected transcription download, got {:?}", other),
    }
    m.step_completed(Ok(()));

    match m.next_action() {
        AcquisitionAction::Download { url, destination } => {
            assert!(url.ends_with("sherpa-onnx-pyannote-segmentation-3-0.tar.bz2"));
            assert_eq!(destination, "/tmp/pyannote-segmentation.tar.bz2");
        }
        other => panic!("expected segmentation download, got {:?}", other),
    }
    m.step_completed(Ok(()));

    match m.next_action() {
        AcquisitionAction::Extract { archive, destination_dir } => {
            assert_eq!(archive, "/tmp/pyannote-segmentation.tar.bz2");
            assert_eq!(destination_dir, "/cache/pyannote");
        }
        other => panic!("expected extraction, got {:?}", other),
    }
    m.step_completed(Ok(()));

    match m.next_action() {
        AcquisitionAction::Download { url, destination } => {
            assert!(url.ends_with("3dspeaker_speech_eres2net_base_sv_zh-cn_3dspeaker_16k.onnx"));
            assert_eq!(
                destination,
                "/cache/pyannote/3dspeaker_speech_eres2net_base_sv_zh-cn_3dspeaker_16k.onnx"
            );
        }
        other => panic!("expected embedding download, got {:?}", other),
    }
    m.step_completed(Ok(()));

    match m.next_action() {
        AcquisitionAction::WriteMarker { path, segmentation_path, embedding_path } => {
            assert_eq!(path, "/cache/pyannote/setup_complete.txt");
            assert_eq!(
                segmentation_path,
                "/cache/pyannote/sherpa-onnx-pyannote-segmentation-3-0/model.onnx"
            );
            assert_eq!(
                embedding_path,
                "/cache/pyannote/3dspeaker_speech_eres2net_base_sv_zh-cn_3dspeaker_16k.onnx"
            );
        }
        other => panic!("expected marker write, got {:?}", other),
    }
    m.step_completed(Ok(()));

    assert!(matches!(
        m.phase,
        AcquisitionPhase::Complete(AcquisitionOutcome::Available)
    ));
    assert!(matches!(m.next_action(), AcquisitionAction::Finished));
}

#[test]
fn test_download_404_aborts() {
    let mut m = start_missing_both();
    m.confirm("y");
    assert!(matches!(m.phase, AcquisitionPhase::TranscriptionDownload));

    let outcome = classify_http_status(404);
    let err = outcome.unwrap_err();
    match &err {
        AudioTranscriptionError::Network(msg) => assert_eq!(msg, "HTTP status 404"),
        other => panic!("expected network error, got {:?}", other),
    }
    m.step_completed(Err(err));

    match &m.phase {
        AcquisitionPhase::Complete(AcquisitionOutcome::Failed(
            AudioTranscriptionError::Network(msg),
        )) => assert_eq!(msg, "HTTP status 404"),
        other => panic!("expected failed run, got {:?}", other),
    }
    assert!(matches!(m.next_action(), AcquisitionAction::Finished));
}

#[test]
fn test_extract_failure_skips_embedding() {
    let mut m = ModelAcquisition::start(
        "/cache".to_string(),
        "/tmp".to_string(),
        ModelSize::Medium,
        true,
        false,
    );
    m.confirm("");
    assert!(matches!(m.phase, AcquisitionPhase::SegmentationDownload));
    m.step_completed(Ok(()));
    assert!(matches!(m.phase, AcquisitionPhase::SegmentationExtract));

    let err = audio_transcribe::download::classify_extract_exit(false, "tar: bad archive")
        .unwrap_err();
    match &err {
        AudioTranscriptionError::Extract(msg) => {
            assert_eq!(msg, "Failed to extract archive: tar: bad archive")
        }
        other => panic!("expected extract error, got {:?}", other),
    }
    m.step_completed(Err(err));

    // The embedding download step is never reached: the run is complete.
    assert!(matches!(
        m.phase,
        AcquisitionPhase::Complete(AcquisitionOutcome::Failed(
            AudioTranscriptionError::Extract(_)
        ))
    ));
    assert!(matches!(m.next_action(), AcquisitionAction::Finished));
}

#[test]
fn test_transcription_only_flow() {
    let mut m = ModelAcquisition::start(
        "/cache".to_string(),
        "/tmp".to_string(),
        ModelSize::Tiny,
        false,
        true,
    );
    m.confirm("sure");
    assert!(matches!(m.phase, AcquisitionPhase::TranscriptionDownload));
    m.step_completed(Ok(()));
    assert!(matches!(
        m.phase,
        AcquisitionPhase::Complete(AcquisitionOutcome::Available)
    ));
}

#[test]
fn test_http_status_classification() {
    assert!(classify_http_status(200).is_ok());
    assert!(classify_http_status(204).is_ok());
    assert!(classify_http_status(299).is_ok());
    assert!(classify_http_status(199).is_err());
    assert!(classify_http_status(300).is_err());
    assert!(classify_http_status(500).is_err());
}

#[test]
fn test_validate_artifact_size() {
    assert!(validate_artifact_size(1).is_ok());
    assert!(validate_artifact_size(1 << 30).is_ok());
    match validate_artifact_size(0) {
        Err(AudioTranscriptionError::EmptyArtifact(msg)) => {
            assert_eq!(msg, "Downloaded model file is empty")
        }
        other => panic!("expected empty-artifact error, got {:?}", other),
    }
}
