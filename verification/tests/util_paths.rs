use resample2::gpu::{detect_gpu_capabilities, PlatformOs};
use resample2::paths::{basename, dirname, get_default_download_path, get_default_model_directory, join_path};
use resample2::resolver::{
    audio_separator_bundled_resource, ff_bundled_resource, get_ytdlp_binary, resolve_binary,
    ytdlp_bundled_resource,
};
use resample2::strutil::{i64_to_dec, parse_u64_dec, u64_to_dec};

#[test]
fn decimal_rendering() {
    assert_eq!(u64_to_dec(0), "0");
    assert_eq!(u64_to_dec(7), "7");
    assert_eq!(u64_to_dec(12345), "12345");
    assert_eq!(u64_to_dec(u64::MAX), "18446744073709551615");
    assert_eq!(i64_to_dec(-5), "-5");
    assert_eq!(i64_to_dec(42), "42");
    assert_eq!(i64_to_dec(i64::MIN), "-9223372036854775808");
}

#[test]
fn decimal_parsing() {
    assert_eq!(parse_u64_dec("0"), Some(0));
    assert_eq!(parse_u64_dec("12345"), Some(12345));
    assert_eq!(parse_u64_dec(""), None);
    assert_eq!(parse_u64_dec("12a"), None);
    assert_eq!(parse_u64_dec("-3"), None);
    // nineteen digits are accepted, twenty are not
    assert_eq!(parse_u64_dec("9999999999999999999"), Some(9_999_999_999_999_999_999));
    assert_eq!(parse_u64_dec("12345678901234567890"), None);
}

#[test]
fn path_arithmetic() {
    assert_eq!(join_path("/a/b", "c"), "/a/b/c");
    assert_eq!(join_path("/a/b/", "c"), "/a/b/c");
    assert_eq!(join_path("", "c"), "c");
    assert_eq!(dirname("/a/b/c.mp3"), "/a/b");
    assert_eq!(dirname("c.mp3"), "");
    assert_eq!(dirname("C:\\x\\y.wav"), "C:\\x");
    assert_eq!(basename("/a/b/c.mp3"), "c.mp3");
    assert_eq!(basename("c.mp3"), "c.mp3");
}

#[test]
fn default_locations_hang_off_documents() {
    match get_default_download_path() {
        Ok(p) => assert!(p.ends_with("/Documents/Resample2")),
        Err(e) => assert_eq!(e, "Failed to get home directory"),
    }
    match get_default_model_directory() {
        Ok(p) => assert!(p.ends_with("/Documents/Resample2/Models")),
        Err(e) => assert_eq!(e, "Failed to get home directory"),
    }
}

#[test]
fn bundled_resource_paths() {
    assert_eq!(ytdlp_bundled_resource(true), "resources/yt-dlp-standalone.bat");
    assert_eq!(ytdlp_bundled_resource(false), "resources/yt-dlp-standalone.sh");
    assert_eq!(
        audio_separator_bundled_resource(false),
        "resources/audio-separator-standalone.sh"
    );
    assert_eq!(ff_bundled_resource("ffmpeg", true), "resources/ffmpeg/ffmpeg.exe");
    assert_eq!(ff_bundled_resource("ffprobe", false), "resources/ffmpeg/ffprobe");
}

#[test]
fn resolution_with_bundled_candidate_always_succeeds() {
    // success is owed whenever a bundled candidate exists
    let r = get_ytdlp_binary(Some("/res/yt-dlp-standalone.sh".to_string()));
    let p = r.unwrap();
    assert!(p == "yt-dlp" || p == "/res/yt-dlp-standalone.sh");
}

#[test]
fn resolution_prefers_bundled_when_tool_is_absent() {
    // a name that certainly resolves nowhere on the search path
    let r = resolve_binary("no-such-tool-zzqy", Some("/res/tool.sh".to_string()));
    assert_eq!(r, Some("/res/tool.sh".to_string()));
    assert_eq!(resolve_binary("no-such-tool-zzqy", None), None);
}

#[test]
fn resolution_failure_names_the_tool() {
    // without a bundled candidate the failure may only come from the
    // search path probe; with the tool absent it carries the tool name
    match get_ytdlp_binary(None) {
        Ok(p) => assert_eq!(p, "yt-dlp"),
        Err(e) => assert!(
            matches!(e, resample2::errors::OrchestratorError::BinaryNotFound(t) if t == "yt-dlp")
        ),
    }
}

#[test]
fn gpu_decision_table() {
    let mac = detect_gpu_capabilities(PlatformOs::MacOs, true, false, false);
    assert_eq!(mac.gpu_type, "mps");
    assert!(mac.is_available);
    let mac_intel = detect_gpu_capabilities(PlatformOs::MacOs, false, false, false);
    assert_eq!(mac_intel.gpu_type, "metal");
    let win_cuda = detect_gpu_capabilities(PlatformOs::Windows, false, true, false);
    assert_eq!(win_cuda.gpu_type, "cuda");
    let win = detect_gpu_capabilities(PlatformOs::Windows, false, false, false);
    assert_eq!(win.gpu_type, "directml");
    let linux_rocm = detect_gpu_capabilities(PlatformOs::Linux, false, false, true);
    assert_eq!(linux_rocm.gpu_type, "rocm");
    let linux_cpu = detect_gpu_capabilities(PlatformOs::Linux, false, false, false);
    assert_eq!(linux_cpu.gpu_type, "cpu");
    assert!(!linux_cpu.is_available);
    let other = detect_gpu_capabilities(PlatformOs::Other, false, true, true);
    assert_eq!(other.gpu_type, "cpu");
    assert_eq!(other.description, "CPU processing - platform not supported");
}
