use audio_transcribe::availability::{diarization_available, is_available, FileProbe};

fn present(len: u64) -> Option<FileProbe> {
    Some(FileProbe { is_file: true, len })
}

#[test]
fn test_availability_decisions() {
    // A missing or unreadable path is unavailable.
    assert!(!is_available(&None));
    // An existing zero-byte file is unavailable.
    assert!(!is_available(&present(0)));
    // An existing non-empty file is available.
    assert!(is_available(&present(7)));
    // A path that is not a regular file is unavailable.
    assert!(!is_available(&Some(FileProbe { is_file: false, len: 7 })));
}

#[test]
fn test_diarization_requires_both() {
    let seg = present(100);
    let emb = present(200);
    assert!(diarization_available(&seg, &emb));
    // Removing either model flips the combined result to false.
    assert!(!diarization_available(&None, &emb));
    assert!(!diarization_available(&seg, &None));
    assert!(!diarization_available(&seg, &present(0)));
    assert!(!diarization_available(&present(0), &emb));
    assert!(!diarization_available(&None, &None));
}
