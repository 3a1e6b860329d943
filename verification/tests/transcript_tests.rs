use audio_transcribe::error::AudioTranscriptionError;
use audio_transcribe::transcript::{ModelInfo, TranscriptGenerator, TranscriptSegment};

fn seg(speaker: Option<u8>, text: &str) -> TranscriptSegment {
    TranscriptSegment { speaker, text: text.to_string() }
}

#[test]
fn test_output_path_next_to_input() {
    let gen = TranscriptGenerator::new(None);
    assert_eq!(
        gen.determine_output_path("/audio/talk.wav").unwrap(),
        "/audio/talk.txt"
    );
    assert_eq!(gen.determine_output_path("talk.wav").unwrap(), "talk.txt");
    assert_eq!(gen.determine_output_path("a.b.wav").unwrap(), "a.b.txt");
    // A hidden file keeps its full name as the stem.
    assert_eq!(gen.determine_output_path("/d/.config").unwrap(), "/d/.config.txt");
    // No extension: the whole name is the stem.
    assert_eq!(gen.determine_output_path("/d/audio").unwrap(), "/d/audio.txt");
}

#[test]
fn test_output_path_with_dir() {
    let mut gen = TranscriptGenerator::new(Some("/out".to_string()));
    assert_eq!(
        gen.determine_output_path("/audio/talk.wav").unwrap(),
        "/out/talk.txt"
    );
    assert_eq!(gen.output_dir().unwrap(), "/out");
    gen.set_output_dir(None);
    assert!(gen.output_dir().is_none());
}

#[test]
fn test_output_path_invalid() {
    let gen = TranscriptGenerator::new(None);
    match gen.determine_output_path("/audio/") {
        Err(AudioTranscriptionError::Configuration(msg)) => {
            assert_eq!(msg, "Invalid input file path")
        }
        other => panic!("expected configuration error, got {:?}", other),
    }
    assert!(gen.determine_output_path("").is_err());
}

#[test]
fn test_format_transcript_speakers() {
    let gen = TranscriptGenerator::new(None);
    let segments = vec![
        seg(Some(1), "hello"),
        seg(Some(1), "again"),
        seg(Some(2), "hi"),
        seg(None, "noise"),
    ];
    let text = gen.format_transcript(&segments).unwrap();
    assert_eq!(
        text,
        "[SPEAKER_01]\nhello\nagain\n\n[SPEAKER_02]\nhi\n\n[SPEAKER_00]\nnoise\n"
    );
}

#[test]
fn test_format_transcript_unassigned_first() {
    let gen = TranscriptGenerator::new(None);
    // A leading unassigned speaker matches the initial state, so no
    // header is printed for it.
    let segments = vec![seg(None, "intro"), seg(Some(3), "talk")];
    let text = gen.format_transcript(&segments).unwrap();
    assert_eq!(text, "intro\n[SPEAKER_03]\ntalk\n");
    assert_eq!(gen.format_transcript(&vec![]).unwrap(), "");
}

#[test]
fn test_model_info_fields() {
    let info = ModelInfo {
        whisper_model: "medium".to_string(),
        diarization_model: "pyannote".to_string(),
        processing_time: 1234,
    };
    assert_eq!(info.whisper_model, "medium");
    assert_eq!(info.diarization_model, "pyannote");
    assert_eq!(info.processing_time, 1234);
}
