use audio_transcribe::download::{
    embedding_model_url, get_pyannote_model_dir, get_pyannote_model_path,
    get_pyannote_segmentation_model_path, get_speaker_embedding_model_path,
    get_whisper_model_path, marker_content, scratch_archive_path, segmentation_archive_url,
    whisper_model_url,
};
use audio_transcribe::model_manager::ModelManager;
use audio_transcribe::ModelSize;

#[test]
fn test_model_size_display() {
    assert_eq!(ModelSize::Tiny.to_string(), "tiny");
    assert_eq!(ModelSize::Base.to_string(), "base");
    assert_eq!(ModelSize::Small.to_string(), "small");
    assert_eq!(ModelSize::Medium.to_string(), "medium");
    assert_eq!(ModelSize::Large.to_string(), "large");
}

#[test]
fn test_model_path_generation() {
    let manager = ModelManager::new().unwrap();

    let whisper_path = manager.get_whisper_model_path(&ModelSize::Base);
    assert!(whisper_path.contains("whisper"));
    assert!(whisper_path.contains("base"));
    assert!(whisper_path.ends_with("ggml-base.bin"));

    let pyannote_path = manager.get_pyannote_model_path();
    assert!(pyannote_path.contains("pyannote"));
    assert!(pyannote_path.ends_with("pytorch_model.bin"));
}

#[test]
fn test_cache_layout_paths() {
    let sizes = [
        ModelSize::Tiny,
        ModelSize::Base,
        ModelSize::Small,
        ModelSize::Medium,
        ModelSize::Large,
    ];
    for size in sizes {
        let first = get_whisper_model_path("/r", &size);
        let second = get_whisper_model_path("/r", &size);
        // The mapping is a pure function of root and size.
        assert_eq!(first, second);
        let name = size.to_string();
        assert!(first.contains("/whisper/"));
        assert!(first.contains(&format!("/{}/", name)));
        assert!(first.ends_with(&format!("ggml-{}.bin", name)));
    }
    assert_eq!(
        get_whisper_model_path("/r", &ModelSize::Medium),
        "/r/whisper/medium/ggml-medium.bin"
    );
    assert_eq!(get_pyannote_model_dir("/r"), "/r/pyannote");
    assert_eq!(get_pyannote_model_path("/r"), "/r/pyannote/setup_complete.txt");
    assert_eq!(
        get_pyannote_segmentation_model_path("/r"),
        "/r/pyannote/sherpa-onnx-pyannote-segmentation-3-0/model.onnx"
    );
    assert_eq!(
        get_speaker_embedding_model_path("/r"),
        "/r/pyannote/3dspeaker_speech_eres2net_base_sv_zh-cn_3dspeaker_16k.onnx"
    );
}

#[test]
fn test_model_urls() {
    assert_eq!(
        whisper_model_url(&ModelSize::Tiny),
        "https://huggingface.co/ggerganov/whisper.cpp/resolve/main/ggml-tiny.bin"
    );
    assert_eq!(
        segmentation_archive_url(),
        "https://github.com/k2-fsa/sherpa-onnx/releases/download/speaker-segmentation-models/sherpa-onnx-pyannote-segmentation-3-0.tar.bz2"
    );
    assert_eq!(
        embedding_model_url(),
        "https://github.com/k2-fsa/sherpa-onnx/releases/download/speaker-recongition-models/3dspeaker_speech_eres2net_base_sv_zh-cn_3dspeaker_16k.onnx"
    );
    assert_eq!(
        scratch_archive_path("/tmp"),
        "/tmp/pyannote-segmentation.tar.bz2"
    );
}

#[test]
fn test_required_directories() {
    let manager = ModelManager::with_cache_dir("/r".to_string());
    let dirs = manager.required_directories();
    assert_eq!(
        dirs,
        vec![
            "/r".to_string(),
            "/r/whisper".to_string(),
            "/r/whisper/tiny".to_string(),
            "/r/whisper/base".to_string(),
            "/r/whisper/small".to_string(),
            "/r/whisper/medium".to_string(),
            "/r/whisper/large".to_string(),
            "/r/pyannote".to_string(),
        ]
    );
    assert_eq!(manager.cache_dir(), "/r");
    assert_eq!(manager.get_whisper_model_dir(&ModelSize::Small), "/r/whisper/small");
    assert_eq!(manager.get_pyannote_model_dir(), "/r/pyannote");
}

#[test]
fn test_marker_content_contains_paths() {
    let seg = get_pyannote_segmentation_model_path("/r");
    let emb = get_speaker_embedding_model_path("/r");
    let content = marker_content("2024-01-01 00:00:00 UTC", &seg, &emb);
    assert!(content.contains(&seg));
    assert!(content.contains(&emb));
    assert!(content.contains("2024-01-01 00:00:00 UTC"));
    assert!(content.starts_with("Sherpa-ONNX diarization setup completed at: "));
}
