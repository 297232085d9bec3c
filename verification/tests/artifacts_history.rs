use resample2::artifacts::{
    ext_of, list_stem_outputs, locate_artifact, pick_newest_file, FileMeta, MediaClass,
};
use resample2::errors::OrchestratorError;
use resample2::history::{build_history, format_timestamp};

fn meta(name: &str, created: u64) -> FileMeta {
    FileMeta { name: name.to_string(), created_secs: created, size: 1000, is_file: true }
}

#[test]
fn locate_prefers_file_inside_recency_window() {
    // one file created 5 seconds ago, one 40 seconds ago, window of 30
    let now = 1_000_000_u64;
    let entries = vec![meta("old.mp3", now - 40), meta("new.mp3", now - 5)];
    let i = locate_artifact(&entries, now, 30, MediaClass::Audio).unwrap();
    assert_eq!(entries[i].name, "new.mp3");
}

#[test]
fn locate_reports_artifact_not_found_outside_window() {
    let now = 1_000_000_u64;
    let entries = vec![meta("a.mp3", now - 40), meta("b.mp3", now - 31)];
    let r = locate_artifact(&entries, now, 30, MediaClass::Audio);
    assert!(matches!(r, Err(OrchestratorError::ArtifactNotFound)));
}

#[test]
fn locate_filters_by_extension_allow_list() {
    let now = 100_u64;
    let entries = vec![meta("notes.txt", now - 1), meta("song.OGG", now - 2)];
    let i = locate_artifact(&entries, now, 30, MediaClass::Audio).unwrap();
    assert_eq!(entries[i].name, "song.OGG");
    let video = locate_artifact(&entries, now, 30, MediaClass::Video);
    assert!(video.is_err());
}

#[test]
fn locate_picks_latest_creation_time() {
    let now = 100_u64;
    let entries = vec![meta("a.wav", 90), meta("b.wav", 95), meta("c.wav", 92)];
    let i = locate_artifact(&entries, now, 30, MediaClass::Audio).unwrap();
    assert_eq!(entries[i].name, "b.wav");
}

#[test]
fn locate_skips_directories() {
    let now = 100_u64;
    let mut dir = meta("x.mp3", 99);
    dir.is_file = false;
    let entries = vec![dir, meta("y.mp3", 95)];
    let i = locate_artifact(&entries, now, 30, MediaClass::Audio).unwrap();
    assert_eq!(entries[i].name, "y.mp3");
}

#[test]
fn extension_extraction() {
    assert_eq!(ext_of("a.tar.gz"), Some("gz"));
    assert_eq!(ext_of("song.mp3"), Some("mp3"));
    assert_eq!(ext_of("noext"), None);
    assert_eq!(ext_of(".hidden"), None);
}

#[test]
fn newest_file_selection() {
    let entries = vec![meta("a", 10), meta("b", 30), meta("c", 20)];
    let i = pick_newest_file(&entries).unwrap();
    assert_eq!(entries[i].name, "b");
    let empty: Vec<FileMeta> = vec![];
    assert!(pick_newest_file(&empty).is_none());
}

#[test]
fn stem_output_listing() {
    let entries = vec![
        meta("vocals.wav", 1),
        meta("readme.txt", 2),
        meta("instr.flac", 3),
        meta("mix.mp3", 4),
    ];
    let idx = list_stem_outputs(&entries);
    let names: Vec<&str> = idx.iter().map(|&i| entries[i].name.as_str()).collect();
    assert_eq!(names, vec!["vocals.wav", "instr.flac", "mix.mp3"]);
}

#[test]
fn history_sorted_newest_first_with_distinct_timestamps() {
    let downloads = vec![meta("a.mp3", 100), meta("b.mp3", 300)];
    let separated = vec![meta("c.wav", 200)];
    let h = build_history("/dl/Downloads", &downloads, "/dl/Separated", &separated);
    assert_eq!(h.len(), 3);
    let ts: Vec<u64> = h.iter().map(|e| e.created_timestamp).collect();
    assert_eq!(ts, vec![300, 200, 100]);
    // strictly descending
    assert!(ts[0] > ts[1] && ts[1] > ts[2]);
}

#[test]
fn history_entry_fields() {
    let downloads = vec![meta("song.mp3", 120)];
    let none: Vec<FileMeta> = vec![];
    let h = build_history("/dl/Downloads", &downloads, "/dl/Separated", &none);
    assert_eq!(h.len(), 1);
    let e = &h[0];
    assert_eq!(e.id, "downloads_120");
    assert_eq!(e.name, "song.mp3");
    assert_eq!(e.file_path, "/dl/Downloads/song.mp3");
    assert_eq!(e.directory_type, "downloads");
    assert_eq!(e.created_timestamp, 120);
    assert_eq!(e.created_display, "1970-01-01 00:02");
    assert!(e.duration.is_none());
    assert_eq!(e.file_size, 1000);
}

#[test]
fn history_skips_non_files() {
    let mut d = meta("sub", 50);
    d.is_file = false;
    let downloads = vec![d, meta("a.mp3", 60)];
    let none: Vec<FileMeta> = vec![];
    let h = build_history("/x", &downloads, "/y", &none);
    assert_eq!(h.len(), 1);
    assert_eq!(h[0].name, "a.mp3");
}

#[test]
fn timestamp_display_is_utc_civil_time() {
    assert_eq!(format_timestamp(0), "1970-01-01 00:00");
    assert_eq!(format_timestamp(86400 + 3660), "1970-01-02 01:01");
}
