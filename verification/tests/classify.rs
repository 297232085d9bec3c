use resample2::input::{detect_input_type, ensure_downloadable, validate_nonempty_input, InputType};
use resample2::errors::OrchestratorError;

#[test]
fn classify_streaming_domain() {
    assert_eq!(
        detect_input_type("https://www.youtube.com/watch?v=abc", false),
        InputType::YouTube
    );
    assert_eq!(detect_input_type("https://youtu.be/abc", false), InputType::YouTube);
    assert_eq!(
        detect_input_type("https://music.youtube.com/watch?v=abc", false),
        InputType::YouTube
    );
}

#[test]
fn classify_streaming_domain_case_insensitive() {
    assert_eq!(
        detect_input_type("HTTPS://WWW.YOUTUBE.COM/WATCH?V=ABC", false),
        InputType::YouTube
    );
    assert_eq!(detect_input_type("YouTu.Be/xyz", false), InputType::YouTube);
}

#[test]
fn classify_track_domain() {
    assert_eq!(
        detect_input_type("https://open.spotify.com/track/123", false),
        InputType::Spotify
    );
    assert_eq!(detect_input_type("SPOTIFY.COM/track/9", false), InputType::Spotify);
}

#[test]
fn classify_other_url_is_unknown() {
    assert_eq!(detect_input_type("https://example.com/a.mp3", false), InputType::Unknown);
    assert_eq!(detect_input_type("http://example.com", false), InputType::Unknown);
}

#[test]
fn classify_path_shapes_are_local() {
    assert_eq!(detect_input_type("/home/user/song.mp3", false), InputType::LocalFile);
    assert_eq!(detect_input_type("C:\\Music\\song.wav", false), InputType::LocalFile);
    assert_eq!(detect_input_type("./relative", false), InputType::LocalFile);
}

#[test]
fn classify_existing_file_without_extension_is_local() {
    // the probe says the literal string names an existing file
    assert_eq!(detect_input_type("somefile", true), InputType::LocalFile);
}

#[test]
fn classify_nonexistent_bare_word_is_unknown() {
    assert_eq!(detect_input_type("somefile", false), InputType::Unknown);
}

#[test]
fn classify_trims_whitespace() {
    assert_eq!(detect_input_type("  https://youtube.com/x  ", false), InputType::YouTube);
}

#[test]
fn url_rules_take_precedence_over_existence() {
    // a string that is both a plausible URL and an existing file resolves
    // by rule order
    assert_eq!(detect_input_type("dir/youtube.com.txt", true), InputType::YouTube);
}

#[test]
fn only_remote_kinds_are_downloadable() {
    assert!(ensure_downloadable(&InputType::YouTube).is_ok());
    assert!(ensure_downloadable(&InputType::Spotify).is_ok());
    assert!(matches!(
        ensure_downloadable(&InputType::Unknown),
        Err(OrchestratorError::ClassificationUnknown)
    ));
    assert!(ensure_downloadable(&InputType::LocalFile).is_err());
}

#[test]
fn empty_input_is_rejected() {
    assert!(validate_nonempty_input("   ").is_err());
    assert!(validate_nonempty_input("x").is_ok());
}
