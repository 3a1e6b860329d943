use audio_transcribe::browser::{format_file_size, DirectoryEntry, Direction, FileBrowser, RawDirEntry};

fn raw(name: &str, is_dir: bool, size: u64) -> RawDirEntry {
    RawDirEntry { name: name.to_string(), is_dir, size }
}

#[test]
fn test_supported_audio_formats() {
    assert!(FileBrowser::is_supported_audio_format("wav"));
    assert!(FileBrowser::is_supported_audio_format("WAV"));
    assert!(FileBrowser::is_supported_audio_format("mp3"));
    assert!(FileBrowser::is_supported_audio_format("m4a"));
    assert!(FileBrowser::is_supported_audio_format("flac"));
    assert!(FileBrowser::is_supported_audio_format("ogg"));
    assert!(FileBrowser::is_supported_audio_format("webm"));

    assert!(!FileBrowser::is_supported_audio_format("txt"));
    assert!(!FileBrowser::is_supported_audio_format("pdf"));
    assert!(!FileBrowser::is_supported_audio_format("mp4"));
}

#[test]
fn test_file_size_formatting() {
    assert_eq!(format_file_size(0), "0 B");
    assert_eq!(format_file_size(512), "512 B");
    assert_eq!(format_file_size(1024), "1.0 KB");
    assert_eq!(format_file_size(1536), "1.5 KB");
    assert_eq!(format_file_size(1024 * 1024), "1.0 MB");
    assert_eq!(format_file_size(1024 * 1024 * 1024), "1.0 GB");
}

#[test]
fn test_file_browser_creation() {
    let temp_dir = tempfile::TempDir::new().unwrap();
    let browser = FileBrowser::new(temp_dir.path().to_str().unwrap().to_string()).unwrap();

    assert_eq!(browser.current_path(), temp_dir.path().to_str().unwrap());
    assert_eq!(browser.selected_index(), 0);
    assert!(browser.is_audio_filter_enabled());
}

#[test]
fn test_listing_classification_and_order() {
    let mut browser = FileBrowser::new("/music".to_string()).unwrap();
    browser
        .set_directory_listing(vec![
            raw("zeta.wav", false, 10),
            raw("notes.txt", false, 5),
            raw("alpha.mp3", false, 20),
            raw("covers", true, 0),
        ]);
    // Filter on: parent, then directories, then audio files by name.
    let entries = browser.entries();
    assert_eq!(entries.len(), 4);
    assert!(matches!(entries[0], DirectoryEntry::Parent));
    match &entries[1] {
        DirectoryEntry::Directory { name } => assert_eq!(name, "covers"),
        other => panic!("expected directory, got {:?}", other),
    }
    match &entries[2] {
        DirectoryEntry::AudioFile { name, size } => {
            assert_eq!(name, "alpha.mp3");
            assert_eq!(*size, 20);
        }
        other => panic!("expected audio file, got {:?}", other),
    }
    match &entries[3] {
        DirectoryEntry::AudioFile { name, .. } => assert_eq!(name, "zeta.wav"),
        other => panic!("expected audio file, got {:?}", other),
    }
}

#[test]
fn test_filter_toggle_listing() {
    let mut browser = FileBrowser::new("/music".to_string()).unwrap();
    browser.set_directory_listing(vec![
        raw("audio.wav", false, 10),
        raw("document.txt", false, 12),
    ]);
    let filtered_count = browser.entries().len();
    browser.set_audio_filter(false).unwrap();
    let unfiltered_count = browser.entries().len();
    assert_eq!(filtered_count, 2); // parent + audio.wav
    assert_eq!(unfiltered_count, 3); // parent + audio.wav + document.txt
    assert!(!browser.is_audio_filter_enabled());
    // Other files sort after audio files.
    match &browser.entries()[2] {
        DirectoryEntry::File { name, .. } => assert_eq!(name, "document.txt"),
        other => panic!("expected plain file, got {:?}", other),
    }
}

#[test]
fn test_selection_moves() {
    let mut browser = FileBrowser::new("/music".to_string()).unwrap();
    browser.set_directory_listing(vec![
        raw("audio1.wav", false, 1),
        raw("audio2.mp3", false, 2),
    ]);
    assert_eq!(browser.entries().len(), 3);
    assert_eq!(browser.selected_index(), 0);
    browser.move_selection(Direction::Up);
    assert_eq!(browser.selected_index(), 0);
    browser.move_selection(Direction::Down);
    browser.move_selection(Direction::Down);
    assert_eq!(browser.selected_index(), 2);
    browser.move_selection(Direction::Down);
    assert_eq!(browser.selected_index(), 2);
    browser.move_selection(Direction::Up);
    assert_eq!(browser.selected_index(), 1);
}

#[test]
fn test_navigate_into_directory() {
    let mut browser = FileBrowser::new("/music".to_string()).unwrap();
    browser.set_directory_listing(vec![raw("covers", true, 0)]);
    browser.move_selection(Direction::Down);
    let picked = browser.navigate_selected().unwrap();
    assert!(picked.is_none());
    assert_eq!(browser.current_path(), "/music/covers");
    assert_eq!(browser.selected_index(), 0);
    // The listing empties until the shell rescans.
    assert_eq!(browser.entries().len(), 1);
    assert!(matches!(browser.entries()[0], DirectoryEntry::Parent));
}

#[test]
fn test_navigate_selected_picks_file() {
    let mut browser = FileBrowser::new("/music".to_string()).unwrap();
    browser.set_directory_listing(vec![raw("song.flac", false, 44)]);
    browser.move_selection(Direction::Down);
    let picked = browser.navigate_selected().unwrap();
    assert_eq!(picked.unwrap(), "/music/song.flac");
    assert_eq!(browser.current_path(), "/music");
}

#[test]
fn test_parent_navigation() {
    let mut browser = FileBrowser::new("/music/covers".to_string()).unwrap();
    browser.set_directory_listing(vec![]);
    let picked = browser.navigate_selected().unwrap();
    assert!(picked.is_none());
    assert_eq!(browser.current_path(), "/music");
}

#[test]
fn test_render_contents() {
    let mut browser = FileBrowser::new("/music".to_string()).unwrap();
    browser.set_directory_listing(vec![raw("song.wav", false, 1536)]);
    let screen = browser.render();
    assert!(screen.contains("Directory: /music"));
    assert!(screen.contains("Filter: Audio only"));
    assert!(screen.contains("Controls: Up/Down=navigate, Enter=select, f=filter, q=quit"));
    assert!(screen.contains("> ../"));
    assert!(screen.contains("song.wav (1.5 KB)"));

    let empty = FileBrowser::new("/".to_string()).unwrap();
    let screen = empty.render();
    assert!(screen.contains("(No files to display)"));
}

#[test]
fn test_format_file_size_rounding() {
    assert_eq!(format_file_size(1023), "1023 B");
    assert_eq!(format_file_size(1587), "1.5 KB");
    assert_eq!(format_file_size(1024 * 1024 - 1), "1024.0 KB");
    assert_eq!(format_file_size(3 * 1024 * 1024 / 2), "1.5 MB");
}
