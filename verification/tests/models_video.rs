use resample2::artifacts::FileMeta;
use resample2::errors::OrchestratorError;
use resample2::json::JsonValue;
use resample2::models::{friendly_name_of, list_downloaded_models, model_list_from_text, parse_model_list};
use resample2::video::{
    build_spotify_queries, extract_spotify_track_id, local_file_info_from_text,
    metadata_info_from_text, search_result_from_text, spotify_fallback_info, whole_seconds,
};

#[test]
fn model_catalogue_parsing() {
    let text = r#"{
        "MDX": {
            "Kim Vocal 2": {"filename": "Kim_Vocal_2.onnx", "stems": ["Vocals", "Instrumental"]},
            "No Filename": {"stems": ["Vocals"]}
        },
        "VR": {
            "HP2": {"filename": "2_HP-UVR.pth"}
        },
        "note": "not an object"
    }"#;
    let models = model_list_from_text(text).unwrap();
    assert_eq!(models.len(), 2);
    let kim = models.iter().find(|m| m.filename == "Kim_Vocal_2.onnx").unwrap();
    assert_eq!(kim.arch, "MDX");
    assert_eq!(kim.friendly_name, "Kim Vocal 2");
    assert_eq!(kim.output_stems, "Vocals, Instrumental");
    let hp = models.iter().find(|m| m.filename == "2_HP-UVR.pth").unwrap();
    assert_eq!(hp.arch, "VR");
    assert_eq!(hp.output_stems, "Unknown");
}

#[test]
fn model_catalogue_rejects_non_object() {
    let r = model_list_from_text("[1, 2, 3]");
    assert!(matches!(r, Err(OrchestratorError::MalformedUpstreamData(_))));
    let r2 = model_list_from_text("{broken");
    assert!(matches!(r2, Err(OrchestratorError::MalformedUpstreamData(_))));
    // the same reading over a hand-built document
    let r3 = parse_model_list(&JsonValue::Arr(vec![JsonValue::Null]));
    assert!(r3.is_err());
}

#[test]
fn friendly_names() {
    assert_eq!(
        friendly_name_of("model_bs_roformer_ep_317_sdr_12.9755.ckpt"),
        "model bs roformer ep 317 sdr 12.9755"
    );
    assert_eq!(friendly_name_of("2_HP-UVR.pth"), "2 HP UVR");
    assert_eq!(friendly_name_of("Kim_Vocal_2.onnx"), "Kim Vocal 2");
}

#[test]
fn downloaded_model_listing() {
    let entries = vec![
        FileMeta { name: "a.ckpt".to_string(), created_secs: 1, size: 9, is_file: true },
        FileMeta { name: "readme.md".to_string(), created_secs: 2, size: 9, is_file: true },
        FileMeta { name: "b.onnx".to_string(), created_secs: 3, size: 9, is_file: true },
        FileMeta { name: "c.pth".to_string(), created_secs: 4, size: 9, is_file: false },
    ];
    let models = list_downloaded_models(&entries);
    let names: Vec<&str> = models.iter().map(|m| m.filename.as_str()).collect();
    assert_eq!(names, vec!["a.ckpt", "b.onnx"]);
    assert_eq!(models[0].friendly_name, "a");
}

#[test]
fn video_info_extraction() {
    let text = r#"{"title": "A Song", "duration": 215.7, "thumbnail": "http://t",
                   "uploader": "Artist", "view_count": 12345, "url": "http://media"}"#;
    let info = metadata_info_from_text(text).unwrap();
    assert_eq!(info.title, "A Song");
    assert_eq!(info.duration_secs, Some(215));
    assert_eq!(info.thumbnail.as_deref(), Some("http://t"));
    assert_eq!(info.uploader.as_deref(), Some("Artist"));
    assert_eq!(info.view_count, Some(12345));
    assert_eq!(info.video_url.as_deref(), Some("http://media"));
    assert!(info.error.is_none());
}

#[test]
fn video_info_defaults_on_missing_fields() {
    let info = metadata_info_from_text("{}").unwrap();
    assert_eq!(info.title, "Unknown Title");
    assert!(info.duration_secs.is_none());
    assert!(info.thumbnail.is_none());
    assert!(info.uploader.is_none());
}

#[test]
fn search_result_extraction_prefers_page_reference() {
    let text = r#"{"title": "Found", "webpage_url": "http://page", "url": "http://raw"}"#;
    let info = search_result_from_text(text).unwrap();
    assert_eq!(info.video_url.as_deref(), Some("http://page"));
    assert_eq!(info.uploader.as_deref(), Some("Unknown Artist"));
    let info2 = search_result_from_text(r#"{"url": "http://raw"}"#).unwrap();
    assert_eq!(info2.video_url.as_deref(), Some("http://raw"));
    assert_eq!(info2.title, "Spotify Track");
}

#[test]
fn local_file_info_extraction() {
    let text = r#"{"format": {"duration": "182.4"}}"#;
    let info = local_file_info_from_text("/music/tune.flac", text).unwrap();
    assert!(local_file_info_from_text("/music/tune.flac", "{bad").is_none());
    assert_eq!(info.title, "tune.flac");
    assert_eq!(info.duration_secs, Some(182));
    assert_eq!(info.uploader.as_deref(), Some("Local File"));
    assert!(info.video_url.is_none());
}

#[test]
fn track_id_extraction() {
    assert_eq!(
        extract_spotify_track_id("https://open.spotify.com/track/6rqhFgbbKwnb9MLmUQDhG6?si=abc"),
        Ok("6rqhFgbbKwnb9MLmUQDhG6".to_string())
    );
    assert_eq!(
        extract_spotify_track_id("spotify.com/track/xyz"),
        Ok("xyz".to_string())
    );
    assert!(extract_spotify_track_id("https://open.spotify.com/album/123").is_err());
}

#[test]
fn spotify_query_ranking() {
    let q = build_spotify_queries(
        Some(("Song".to_string(), "Artist".to_string())),
        Some("id123".to_string()),
    );
    assert_eq!(
        q,
        vec![
            "Song Artist",
            "Song Artist official audio",
            "Song Artist lyrics",
            "Song Artist topic",
            "id123",
            "spotify id123",
            "spotify track id123",
        ]
    );
}

#[test]
fn spotify_query_fallbacks() {
    let q = build_spotify_queries(None, Some("id1".to_string()));
    assert_eq!(q, vec!["id1", "spotify id1", "spotify track id1"]);
    let q = build_spotify_queries(None, None);
    assert_eq!(q, vec!["spotify track"]);
}

#[test]
fn spotify_fallback_reference() {
    let queries = vec!["Song Artist".to_string(), "other".to_string()];
    let info = spotify_fallback_info(&queries);
    assert_eq!(info.title, "Spotify Track");
    assert_eq!(info.uploader.as_deref(), Some("Unknown Artist"));
    assert_eq!(info.video_url.as_deref(), Some("ytsearch1:Song Artist"));
    let none: Vec<String> = vec![];
    assert!(spotify_fallback_info(&none).video_url.is_none());
}

#[test]
fn whole_seconds_parsing() {
    assert_eq!(whole_seconds("182.4"), Some(182));
    assert_eq!(whole_seconds("60"), Some(60));
    assert_eq!(whole_seconds(".5"), None);
    assert_eq!(whole_seconds("abc"), None);
}
