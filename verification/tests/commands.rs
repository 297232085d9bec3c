use resample2::commands::{
    build_download_args, build_metadata_query_args, build_model_download_args, build_probe_args,
    build_search_query_args, build_separation_args, build_time_range_args, engine_family_of,
    format_hhmmss, separation_output_dir, EngineFamily,
};
use resample2::errors::OrchestratorError;
use resample2::json::JsonValue;
use resample2::settings::{project_separation_settings, project_settings};

fn default_settings() -> resample2::settings::OrchestrationSettings {
    project_settings(&JsonValue::Null, "/dl", "/models")
}

fn default_separation() -> resample2::settings::SeparationSettings {
    project_separation_settings(&JsonValue::Null)
}

#[test]
fn hhmmss_formatting() {
    assert_eq!(format_hhmmss(0), "00:00:00");
    assert_eq!(format_hhmmss(10), "00:00:10");
    assert_eq!(format_hhmmss(3723), "01:02:03");
    assert_eq!(format_hhmmss(360000), "100:00:00");
}

#[test]
fn time_range_both_bounds_gives_single_section_trim() {
    let start = 10.0_f64;
    let end = 25.0_f64;
    let args = build_time_range_args(Some(start as u64), Some(end as u64));
    assert_eq!(args, vec!["--download-sections".to_string(), "*00:00:10-00:00:25".to_string()]);
    assert!(!args.contains(&"--postprocessor-args".to_string()));
}

#[test]
fn time_range_start_only_gives_post_process_trim() {
    let start = 5.0_f64;
    let args = build_time_range_args(Some(start as u64), None);
    assert_eq!(args, vec!["--postprocessor-args".to_string(), "ffmpeg:-ss 5".to_string()]);
    assert!(!args.contains(&"--download-sections".to_string()));
}

#[test]
fn time_range_end_only_gives_post_process_trim() {
    let args = build_time_range_args(None, Some(30));
    assert_eq!(args, vec!["--postprocessor-args".to_string(), "ffmpeg:-t 30".to_string()]);
}

#[test]
fn time_range_out_of_order_bounds_give_nothing() {
    let args = build_time_range_args(Some(25), Some(10));
    assert!(args.is_empty());
}

#[test]
fn download_args_layout() {
    let s = default_settings();
    let args = build_download_args(
        "https://youtu.be/x",
        Some(10),
        Some(25),
        &s,
        "/dl/Downloads",
        None,
        false,
    );
    assert_eq!(
        args,
        vec![
            "--extract-audio".to_string(),
            "--audio-format".to_string(),
            "mp3".to_string(),
            "--audio-quality".to_string(),
            "0".to_string(),
            "-o".to_string(),
            "%(title)s.%(ext)s".to_string(),
            "-P".to_string(),
            "/dl/Downloads".to_string(),
            "--no-playlist".to_string(),
            "--no-warnings".to_string(),
            "--download-sections".to_string(),
            "*00:00:10-00:00:25".to_string(),
            "https://youtu.be/x".to_string(),
        ]
    );
}

#[test]
fn download_args_reduced_retry_drops_write_flags_keeps_trim() {
    let mut s = default_settings();
    s.write_subtitles = true;
    s.write_thumbnail = true;
    let full = build_download_args("u", Some(5), None, &s, "/d", None, false);
    assert!(full.contains(&"--write-subs".to_string()));
    assert!(full.contains(&"--write-thumbnail".to_string()));
    let reduced = build_download_args("u", Some(5), None, &s, "/d", None, true);
    assert!(!reduced.contains(&"--write-subs".to_string()));
    assert!(!reduced.contains(&"--write-thumbnail".to_string()));
    assert!(reduced.contains(&"--postprocessor-args".to_string()));
    assert_eq!(reduced.last().unwrap(), "u");
}

#[test]
fn download_args_carry_transcoder_hint() {
    let s = default_settings();
    let args = build_download_args("u", None, None, &s, "/d", Some("/res/ffmpeg"), false);
    let i = args.iter().position(|a| a == "--ffmpeg-location").unwrap();
    assert_eq!(args[i + 1], "/res/ffmpeg");
    let without = build_download_args("u", None, None, &s, "/d", None, false);
    assert!(!without.contains(&"--ffmpeg-location".to_string()));
}

#[test]
fn metadata_probe_and_model_download_args() {
    assert_eq!(
        build_metadata_query_args("https://youtu.be/x"),
        vec!["--dump-json", "--no-playlist", "--no-warnings", "https://youtu.be/x"]
    );
    assert_eq!(
        build_probe_args("/tmp/a.mp3"),
        vec!["-v", "quiet", "-print_format", "json", "-show_format", "-show_streams", "/tmp/a.mp3"]
    );
    assert_eq!(
        build_search_query_args("song artist"),
        vec!["ytsearch1:song artist", "--dump-json", "--no-playlist", "--no-warnings"]
    );
    assert_eq!(
        build_model_download_args("m.ckpt", "/models"),
        vec!["--download_model_only", "-m", "m.ckpt", "--model_file_dir", "/models"]
    );
}

#[test]
fn engine_family_detection() {
    assert_eq!(engine_family_of("a.onnx"), Some(EngineFamily::Mdx));
    assert_eq!(engine_family_of("a.pth"), Some(EngineFamily::Vr));
    assert_eq!(engine_family_of("htdemucs_ft.yaml"), Some(EngineFamily::Demucs));
    assert_eq!(engine_family_of("model_bs_roformer_ep_317_sdr_12.9755.ckpt"), Some(EngineFamily::MdxC));
    assert_eq!(engine_family_of("weights.data"), None);
}

#[test]
fn separation_args_mdxc_family() {
    let s = default_separation();
    let args = build_separation_args(&s, "/music/in.wav").unwrap();
    assert_eq!(&args[0..4], &[
        "-m".to_string(),
        "model_bs_roformer_ep_317_sdr_12.9755.ckpt".to_string(),
        "--output_dir".to_string(),
        "/music/Separated".to_string(),
    ]);
    assert!(args.contains(&"--mdxc_segment_size".to_string()));
    assert!(args.contains(&"256".to_string()));
    assert!(!args.contains(&"--mdx_segment_size".to_string()));
    assert!(!args.contains(&"--vr_batch_size".to_string()));
    assert!(!args.contains(&"--demucs_shifts".to_string()));
    assert_eq!(args.last().unwrap(), "/music/in.wav");
}

#[test]
fn separation_args_mdx_family_with_bare_toggle() {
    let mut s = default_separation();
    s.model_filename = "UVR-MDX-NET.onnx".to_string();
    s.mdx_enable_denoise = true;
    s.output_dir = "/out".to_string();
    let args = build_separation_args(&s, "/music/in.wav").unwrap();
    assert!(args.contains(&"--mdx_segment_size".to_string()));
    assert!(args.contains(&"--mdx_overlap".to_string()));
    assert!(args.contains(&"0.25".to_string()));
    // a boolean toggle is a bare flag: it is present and is followed by
    // another flag, not a value
    let i = args.iter().position(|a| a == "--mdx_enable_denoise").unwrap();
    assert!(i == args.len() - 2 || args[i + 1].starts_with("--"));
    assert_eq!(args[3], "/out");
}

#[test]
fn separation_args_reject_control_characters() {
    let mut s = default_separation();
    s.model_filename = "bad\nname.ckpt".to_string();
    let r = build_separation_args(&s, "/music/in.wav");
    assert!(matches!(r, Err(OrchestratorError::InvalidInput(_))));
}

#[test]
fn separation_output_dir_defaults_beside_input() {
    let s = default_separation();
    assert_eq!(separation_output_dir(&s, "/music/in.wav"), "/music/Separated");
    let mut s2 = default_separation();
    s2.output_dir = "/elsewhere".to_string();
    assert_eq!(separation_output_dir(&s2, "/music/in.wav"), "/elsewhere");
    // a bare file name has no parent directory
    assert_eq!(separation_output_dir(&s, "in.wav"), "Separated");
}

#[test]
fn separation_args_single_stem_and_model_dir() {
    let mut s = default_separation();
    s.single_stem = Some("Vocals".to_string());
    s.model_file_dir = "/models".to_string();
    let args = build_separation_args(&s, "/a/in.wav").unwrap();
    let i = args.iter().position(|a| a == "--single_stem").unwrap();
    assert_eq!(args[i + 1], "Vocals");
    let j = args.iter().position(|a| a == "--model_file_dir").unwrap();
    assert_eq!(args[j + 1], "/models");
}
