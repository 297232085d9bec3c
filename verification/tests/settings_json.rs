use resample2::json::JsonValue;
use resample2::settings::{
    check_settings_payload, project_separation_settings, project_settings, project_settings_text,
};

fn obj(fields: Vec<(&str, JsonValue)>) -> JsonValue {
    JsonValue::Obj(fields.into_iter().map(|(k, v)| (k.to_string(), v)).collect())
}

#[test]
fn projection_missing_retries_takes_documented_default() {
    let doc = obj(vec![("download_path", JsonValue::Str("/x".to_string()))]);
    let s = project_settings(&doc, "/dl", "/models");
    assert_eq!(s.retries, 10);
}

#[test]
fn projection_full_defaults() {
    let s = project_settings(&JsonValue::Null, "/dl", "/models");
    assert_eq!(s.download_path, "/dl");
    assert!(s.extract_audio);
    assert_eq!(s.audio_format, "mp3");
    assert_eq!(s.audio_quality, "0");
    assert!(!s.write_subtitles);
    assert!(!s.write_thumbnail);
    assert_eq!(s.retries, 10);
    assert_eq!(s.fragment_retries, 10);
    assert_eq!(s.concurrent_fragments, 1);
    assert_eq!(s.model_directory, "/models");
    assert!(!s.enable_stem_extraction);
}

#[test]
fn projection_reads_present_fields() {
    let doc = obj(vec![
        ("download_path", JsonValue::Str("/custom".to_string())),
        ("extract_audio", JsonValue::Bool(false)),
        ("audio_format", JsonValue::Str("flac".to_string())),
        ("retries", JsonValue::Num("3".to_string())),
    ]);
    let s = project_settings(&doc, "/dl", "/models");
    assert_eq!(s.download_path, "/custom");
    assert!(!s.extract_audio);
    assert_eq!(s.audio_format, "flac");
    assert_eq!(s.retries, 3);
}

#[test]
fn projection_tolerates_mistyped_fields() {
    let doc = obj(vec![
        ("download_path", JsonValue::Num("5".to_string())),
        ("extract_audio", JsonValue::Str("yes".to_string())),
        ("retries", JsonValue::Str("many".to_string())),
        ("concurrent_fragments", JsonValue::Num("2.5".to_string())),
    ]);
    let s = project_settings(&doc, "/dl", "/models");
    assert_eq!(s.download_path, "/dl");
    assert!(s.extract_audio);
    assert_eq!(s.retries, 10);
    assert_eq!(s.concurrent_fragments, 1);
}

#[test]
fn separation_projection_defaults() {
    let s = project_separation_settings(&JsonValue::Null);
    assert_eq!(s.model_filename, "model_bs_roformer_ep_317_sdr_12.9755.ckpt");
    assert_eq!(s.output_format, "WAV");
    assert_eq!(s.output_dir, "");
    assert_eq!(s.normalization, "0.9");
    assert_eq!(s.amplification, "0.0");
    assert!(s.single_stem.is_none());
    assert_eq!(s.sample_rate, 44100);
    assert!(!s.use_autocast);
    assert!(s.use_gpu);
    assert_eq!(s.gpu_type, "auto");
    assert_eq!(s.mdx_segment_size, 256);
    assert_eq!(s.mdx_overlap, "0.25");
    assert_eq!(s.vr_window_size, 512);
    assert_eq!(s.vr_aggression, 5);
    assert_eq!(s.demucs_segment_size, "Default");
    assert_eq!(s.demucs_shifts, 2);
    assert!(s.demucs_segments_enabled);
    assert_eq!(s.mdxc_segment_size, 256);
    assert_eq!(s.mdxc_overlap, 8);
    assert_eq!(s.mdxc_pitch_shift, 0);
}

#[test]
fn text_projection_roundtrip() {
    // exercises the parsing boundary end to end: a wrong tree would
    // surface as wrong projected values
    let text = r#"{"download_path": "/from/json", "extract_audio": false,
                   "retries": 7,
                   "separation_settings": {"model_filename": "x.onnx",
                                           "mdxc_pitch_shift": -2,
                                           "vr_aggression": 9}}"#;
    let (s, sep) = project_settings_text(text, "/dl", "/models");
    assert_eq!(s.download_path, "/from/json");
    assert!(!s.extract_audio);
    assert_eq!(s.retries, 7);
    assert_eq!(sep.model_filename, "x.onnx");
    assert_eq!(sep.mdxc_pitch_shift, -2);
    assert_eq!(sep.vr_aggression, 9);
}

#[test]
fn text_projection_tolerates_malformed_text() {
    // malformed text projects every field to its default
    let (s, sep) = project_settings_text("{not json", "/dl", "/models");
    assert_eq!(s.download_path, "/dl");
    assert_eq!(s.retries, 10);
    assert_eq!(sep.output_format, "WAV");
    let (s2, _) = project_settings_text("", "/dl", "/models");
    assert_eq!(s2.audio_format, "mp3");
}

#[test]
fn settings_payload_validation() {
    assert!(check_settings_payload("{\"theme\": \"dark\"}").is_ok());
    assert!(check_settings_payload("{broken").is_err());
}

#[test]
fn json_number_readings() {
    let n = JsonValue::Num("42".to_string());
    assert_eq!(n.as_u64(), Some(42));
    assert_eq!(n.as_i64(), Some(42));
    let f = JsonValue::Num("42.5".to_string());
    assert_eq!(f.as_u64(), None);
    let neg = JsonValue::Num("-3".to_string());
    assert_eq!(neg.as_u64(), None);
    assert_eq!(neg.as_i64(), Some(-3));
    let s = JsonValue::Str("42".to_string());
    assert_eq!(s.as_u64(), None);
}

#[test]
fn json_get_finds_first_matching_field() {
    let doc = obj(vec![
        ("a", JsonValue::Num("1".to_string())),
        ("b", JsonValue::Num("2".to_string())),
    ]);
    assert_eq!(doc.get("b").unwrap().as_u64(), Some(2));
    assert!(doc.get("c").is_none());
    assert!(JsonValue::Null.get("a").is_none());
}
