use bibo::error::BiboError;

#[test]
fn error_messages() {
    assert_eq!(BiboError::VoiceNotFound("x".to_string()).message(), "Voice 'x' not found");
    assert_eq!(BiboError::VoiceNotInstalled("amy".to_string()).message(), "Voice 'amy' not installed");
    assert_eq!(BiboError::FileNotFound("a.md".to_string()).message(), "File not found: a.md");
    assert_eq!(BiboError::UnsupportedFileType("pdf".to_string()).message(), "Unsupported file type: pdf");
    assert_eq!(BiboError::EmptyFile("a.md".to_string()).message(), "Empty file: a.md");
    assert_eq!(BiboError::NoTextProvided.message(), "No text provided");
    assert_eq!(BiboError::InvalidSpeed("warp".to_string()).message(), "Invalid speed: warp");
    assert_eq!(BiboError::DownloadFailed("HTTP 404".to_string()).message(), "Download failed: HTTP 404");
    assert_eq!(BiboError::SynthesisFailed("boom".to_string()).message(), "TTS synthesis failed: boom");
    assert_eq!(BiboError::PlaybackFailed("no device".to_string()).message(), "Audio playback failed: no device");
    assert_eq!(BiboError::ConfigError("c".to_string()).message(), "Config error: c");
    assert_eq!(BiboError::SherpaNotFound.message(), "sherpa-onnx TTS engine not found");
    assert_eq!(BiboError::Other("plain".to_string()).message(), "plain");
}

#[test]
fn not_installed_tip_names_the_voice() {
    let tips = BiboError::VoiceNotInstalled("amy".to_string()).tips();
    assert_eq!(
        tips,
        vec![
            "bibo -d amy  # Download this voice".to_string(),
            "bibo -d list     # Show all downloadable voices".to_string(),
        ]
    );
}

#[test]
fn tips_per_kind() {
    assert_eq!(BiboError::VoiceNotFound(String::new()).tips().len(), 2);
    assert_eq!(BiboError::UnsupportedFileType(String::new()).tips().len(), 3);
    assert_eq!(BiboError::InvalidSpeed(String::new()).tips().len(), 4);
    assert_eq!(BiboError::InvalidSpeed(String::new()).tips()[3], "bibo \"text\" -f        # Fast mode shortcut");
    assert_eq!(BiboError::DownloadFailed(String::new()).tips()[0], "Check your internet connection");
    assert_eq!(BiboError::PlaybackFailed(String::new()).tips(), BiboError::SynthesisFailed(String::new()).tips());
    assert_eq!(BiboError::Other(String::new()).tips(), vec!["bibo --help  # Show usage".to_string()]);
    assert_eq!(BiboError::NoTextProvided.tips()[1], "bibo -i README.md      # From file");
    assert_eq!(BiboError::EmptyFile(String::new()).tips().len(), 2);
    assert_eq!(BiboError::FileNotFound(String::new()).tips().len(), 2);
    assert_eq!(BiboError::ConfigError(String::new()).tips().len(), 1);
    assert_eq!(BiboError::SherpaNotFound.tips().len(), 2);
}
