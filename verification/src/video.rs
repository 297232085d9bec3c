//! Media metadata: the structured information extracted from the download
//! tool's metadata queries and the probe tool's responses, and the
//! resolution of a track-platform reference to ranked streaming search
//! queries. The tools run outside; every reading of their responses is
//! verified over the parsed document.

use vstd::prelude::*;
use crate::json::{json_doc_of, json_text_wellformed, JsonValue};
use crate::paths::{basename, spec_basename};
use crate::settings::{
    opt_str_field, opt_u64_field, spec_opt_str_field, spec_opt_u64_field, spec_str_field_or,
    str_field_or,
};
use crate::strutil::{
    all_digits, contains_seq, dec_val, find_char, first_char_index, first_sub_index, has_char,
    lemma_first_char_index, lemma_first_sub_index, parse_u64_dec, str_find,
};

verus! {

/// Metadata of one media item, as surfaced to the UI. The duration is in
/// whole seconds.
#[derive(Debug, Clone)]
pub struct VideoInfo {
    pub title: String,
    pub duration_secs: Option<u64>,
    pub thumbnail: Option<String>,
    pub uploader: Option<String>,
    pub view_count: Option<u64>,
    pub video_url: Option<String>,
    pub error: Option<String>,
}

/// The whole seconds of a decimal duration rendering: the digits before
/// any decimal point, readable as an unsigned integer.
pub open spec fn spec_whole_seconds(t: Seq<char>) -> Option<u64> {
    let ip = if has_char(t, '.') {
        t.subrange(0, first_char_index(t, '.'))
    } else {
        t
    };
    if 1 <= ip.len() <= 19 && all_digits(ip) {
        Some(dec_val(ip) as u64)
    } else {
        None
    }
}

/// Reads the whole seconds out of a decimal duration rendering.
pub fn whole_seconds(t: &str) -> (r: Option<u64>)
    ensures
        r == spec_whole_seconds(t@),
{
    let len = t.unicode_len();
    match find_char(t, '.') {
        Some(k) => {
            proof {
                lemma_first_char_index(t@, '.', k as int);
            }
            let ip = t.substring_char(0, k);
            proof {
                assert(ip@ =~= t@.subrange(0, k as int));
            }
            parse_u64_dec(ip)
        },
        None => parse_u64_dec(t),
    }
}

/// The duration field of a metadata document, in whole seconds: defined
/// exactly for a numeric `duration` whose integer part is readable.
pub open spec fn spec_duration_field(doc: JsonValue) -> Option<u64> {
    match crate::json::spec_get(doc, "duration"@) {
        Some(v) => match v {
            JsonValue::Num(s) => spec_whole_seconds(s@),
            _ => None,
        },
        None => None,
    }
}

/// Reads the duration field of a metadata document.
pub fn duration_field(doc: &JsonValue) -> (r: Option<u64>)
    ensures
        r == spec_duration_field(*doc),
{
    match doc.get("duration") {
        Some(v) => match v.as_num_text() {
            Some(s) => whole_seconds(s.as_str()),
            None => None,
        },
        None => None,
    }
}

/// `r` is the metadata reading of `doc`.
pub open spec fn is_video_info_of(r: VideoInfo, doc: JsonValue) -> bool {
    &&& r.title@ == spec_str_field_or(doc, "title"@, "Unknown Title"@)
    &&& r.duration_secs == spec_duration_field(doc)
    &&& (match r.thumbnail {
        Some(s) => spec_opt_str_field(doc, "thumbnail"@) == Some(s@),
        None => spec_opt_str_field(doc, "thumbnail"@) is None,
    })
    &&& (match r.uploader {
        Some(s) => spec_opt_str_field(doc, "uploader"@) == Some(s@),
        None => spec_opt_str_field(doc, "uploader"@) is None,
    })
    &&& r.view_count == spec_opt_u64_field(doc, "view_count"@)
    &&& (match r.video_url {
        Some(s) => spec_opt_str_field(doc, "url"@) == Some(s@),
        None => spec_opt_str_field(doc, "url"@) is None,
    })
    &&& r.error is None
}

/// Extracts the surfaced metadata from one metadata-query response.
pub fn extract_video_info(doc: &JsonValue) -> (r: VideoInfo)
    ensures
        is_video_info_of(r, *doc),
{
    VideoInfo {
        title: str_field_or(doc, "title", "Unknown Title"),
        duration_secs: duration_field(doc),
        thumbnail: opt_str_field(doc, "thumbnail"),
        uploader: opt_str_field(doc, "uploader"),
        view_count: opt_u64_field(doc, "view_count"),
        video_url: opt_str_field(doc, "url"),
        error: None,
    }
}

/// The playable reference of a search result: its page reference, or its
/// raw reference when no page reference is present.
pub open spec fn spec_search_result_url(doc: JsonValue) -> Option<Seq<char>> {
    match spec_opt_str_field(doc, "webpage_url"@) {
        Some(u) => Some(u),
        None => spec_opt_str_field(doc, "url"@),
    }
}

/// `r` is the search-result reading of `doc`, with the track-resolution
/// defaults for the missing fields.
pub open spec fn is_search_result_of(r: VideoInfo, doc: JsonValue) -> bool {
    &&& r.title@ == spec_str_field_or(doc, "title"@, "Spotify Track"@)
    &&& r.duration_secs == spec_duration_field(doc)
    &&& (match r.thumbnail {
        Some(s) => spec_opt_str_field(doc, "thumbnail"@) == Some(s@),
        None => spec_opt_str_field(doc, "thumbnail"@) is None,
    })
    &&& r.uploader is Some
    &&& (match spec_opt_str_field(doc, "uploader"@) {
        Some(u) => r.uploader->0@ == u,
        None => r.uploader->0@ == "Unknown Artist"@,
    })
    &&& r.view_count == spec_opt_u64_field(doc, "view_count"@)
    &&& (match r.video_url {
        Some(s) => spec_search_result_url(doc) == Some(s@),
        None => spec_search_result_url(doc) is None,
    })
    &&& r.error is None
}

/// Extracts the surfaced metadata from one streaming-search result, with
/// the track-resolution defaults for the missing fields.
pub fn extract_search_result(doc: &JsonValue) -> (r: VideoInfo)
    ensures
        is_search_result_of(r, *doc),
{
    let uploader = match opt_str_field(doc, "uploader") {
        Some(u) => Some(u),
        None => Some("Unknown Artist".to_owned()),
    };
    let video_url = match opt_str_field(doc, "webpage_url") {
        Some(u) => Some(u),
        None => opt_str_field(doc, "url"),
    };
    VideoInfo {
        title: str_field_or(doc, "title", "Spotify Track"),
        duration_secs: duration_field(doc),
        thumbnail: opt_str_field(doc, "thumbnail"),
        uploader,
        view_count: opt_u64_field(doc, "view_count"),
        video_url,
        error: None,
    }
}

/// Extracts the surfaced metadata for a local file from its path and the
/// probe tool's structured response: the file name as the title, the whole
/// seconds of `format.duration`, and the fixed local-file uploader tag.
pub fn extract_local_file_info(file_path: &str, probe_doc: &JsonValue) -> (r: VideoInfo)
    ensures
        spec_basename(file_path@).len() > 0 ==> r.title@ == spec_basename(file_path@),
        spec_basename(file_path@).len() == 0 ==> r.title@ == "Unknown File"@,
        r.duration_secs == spec_probe_duration(*probe_doc),
        r.thumbnail is None,
        r.uploader is Some && r.uploader->0@ == "Local File"@,
        r.view_count is None,
        r.video_url is None,
        r.error is None,
{
    let name = basename(file_path);
    let title = if name.unicode_len() > 0 {
        name.to_owned()
    } else {
        "Unknown File".to_owned()
    };
    let duration_secs = match probe_doc.get("format") {
        Some(fmt) => match fmt.get("duration") {
            Some(d) => match d.as_str() {
                Some(s) => whole_seconds(s.as_str()),
                None => None,
            },
            None => None,
        },
        None => None,
    };
    VideoInfo {
        title,
        duration_secs,
        thumbnail: None,
        uploader: Some("Local File".to_owned()),
        view_count: None,
        video_url: None,
        error: None,
    }
}

/// The probe's duration: the whole seconds of the `duration` text field of
/// the `format` object.
pub open spec fn spec_probe_duration(doc: JsonValue) -> Option<u64> {
    match crate::json::spec_get(doc, "format"@) {
        Some(fmt) => match crate::json::spec_get(fmt, "duration"@) {
            Some(d) => match d {
                JsonValue::Str(s) => spec_whole_seconds(s@),
                _ => None,
            },
            None => None,
        },
        None => None,
    }
}


/// Reads the surfaced metadata straight out of one metadata-query
/// response text. Nothing exactly when the text is not one well-formed
/// document; otherwise the reading of the document the text denotes.
pub fn metadata_info_from_text(text: &str) -> (r: Option<VideoInfo>)
    ensures
        r is Some <==> json_text_wellformed(text@),
        r is Some ==> is_video_info_of(r->0, json_doc_of(text@)),
{
    match crate::json::parse_json(text) {
        Some(doc) => Some(extract_video_info(&doc)),
        None => None,
    }
}

/// Reads the surfaced metadata straight out of one streaming-search
/// result text.
pub fn search_result_from_text(text: &str) -> (r: Option<VideoInfo>)
    ensures
        r is Some <==> json_text_wellformed(text@),
        r is Some ==> is_search_result_of(r->0, json_doc_of(text@)),
{
    match crate::json::parse_json(text) {
        Some(doc) => Some(extract_search_result(&doc)),
        None => None,
    }
}

/// Reads the local-file metadata straight out of the probe tool's
/// response text. The title and the fixed fields depend on the path
/// alone; the duration is the probe reading of the document the text
/// denotes.
pub fn local_file_info_from_text(file_path: &str, text: &str) -> (r: Option<VideoInfo>)
    ensures
        r is Some <==> json_text_wellformed(text@),
        r is Some ==> {
            &&& (spec_basename(file_path@).len() > 0 ==> r->0.title@ == spec_basename(file_path@))
            &&& (spec_basename(file_path@).len() == 0 ==> r->0.title@ == "Unknown File"@)
            &&& r->0.uploader is Some && r->0.uploader->0@ == "Local File"@
            &&& r->0.thumbnail is None
            &&& r->0.view_count is None
            &&& r->0.video_url is None
            &&& r->0.error is None
            &&& r->0.duration_secs == spec_probe_duration(json_doc_of(text@))
        },
{
    match crate::json::parse_json(text) {
        Some(doc) => Some(extract_local_file_info(file_path, &doc)),
        None => None,
    }
}

/// The track identifier of a track-platform reference: the text between
/// the first `track/` marker and the next such marker or the first query
/// separator, whichever comes first.
pub open spec fn spec_track_id(url: Seq<char>) -> Seq<char> {
    let i = first_sub_index(url, "track/"@);
    let rest = url.subrange(i + 6, url.len() as int);
    let seg = if contains_seq(rest, "track/"@) {
        rest.subrange(0, first_sub_index(rest, "track/"@))
    } else {
        rest
    };
    if has_char(seg, '?') {
        seg.subrange(0, first_char_index(seg, '?'))
    } else {
        seg
    }
}

/// Extracts the track identifier from a track-platform reference.
/// Succeeds exactly when the reference carries the `track/` marker; the
/// failure carries the documented message.
pub fn extract_spotify_track_id(url: &str) -> (r: Result<String, String>)
    ensures
        r is Ok <==> contains_seq(url@, "track/"@),
        r is Ok ==> r->Ok_0@ == spec_track_id(url@),
        r is Err ==> r->Err_0@ == "Could not extract track ID from Spotify URL"@,
{
    let len = url.unicode_len();
    match str_find(url, "track/") {
        Some(i) => {
            proof {
                lemma_first_sub_index(url@, "track/"@, i as int);
                reveal_strlit("track/");
            }
            let rest = url.substring_char(i + 6, len);
            proof {
                assert(rest@ =~= url@.subrange(i + 6, url@.len() as int));
            }
            let seg = match str_find(rest, "track/") {
                Some(j) => {
                    proof {
                        lemma_first_sub_index(rest@, "track/"@, j as int);
                    }
                    rest.substring_char(0, j)
                },
                None => rest,
            };
            proof {
                assert(seg@ == (if contains_seq(rest@, "track/"@) {
                    rest@.subrange(0, first_sub_index(rest@, "track/"@))
                } else {
                    rest@
                })) by {
                    if contains_seq(rest@, "track/"@) {
                        assert(seg@ =~= rest@.subrange(0, first_sub_index(rest@, "track/"@)));
                    }
                }
            }
            let clean = match find_char(seg, '?') {
                Some(q) => {
                    proof {
                        lemma_first_char_index(seg@, '?', q as int);
                    }
                    seg.substring_char(0, q)
                },
                None => seg,
            };
            proof {
                assert(clean@ == spec_track_id(url@)) by {
                    if has_char(seg@, '?') {
                        assert(clean@ =~= seg@.subrange(0, first_char_index(seg@, '?')));
                    }
                }
            }
            Ok(clean.to_owned())
        },
        None => Err("Could not extract track ID from Spotify URL".to_owned()),
    }
}

/// The ranked streaming search queries for one track reference: title and
/// author pairings first, then identifier-based fallbacks, then the
/// best-effort generic query when nothing at all is known.
pub open spec fn spec_spotify_queries(
    meta: Option<(String, String)>,
    track_id: Option<String>,
) -> Seq<Seq<char>> {
    (match meta {
        Some(p) => seq![
            p.0@ + " "@ + p.1@,
            p.0@ + " "@ + p.1@ + " official audio"@,
            p.0@ + " "@ + p.1@ + " lyrics"@,
            p.0@ + " "@ + p.1@ + " topic"@,
        ],
        None => Seq::empty(),
    }) + (match track_id {
        Some(id) => seq![id@, "spotify "@ + id@, "spotify track "@ + id@],
        None => Seq::empty(),
    }) + (if meta is None && track_id is None {
        seq!["spotify track"@]
    } else {
        Seq::empty()
    })
}

/// Builds the ranked search queries from the best-effort metadata lookup
/// and the identifier parsed out of the reference. Never empty: with
/// nothing known, the generic query still lets the caller proceed.
#[verifier::rlimit(30)]
pub fn build_spotify_queries(meta: Option<(String, String)>, track_id: Option<String>) -> (r: Vec<
    String,
>)
    ensures
        crate::commands::views_of(r@) == spec_spotify_queries(meta, track_id),
        r@.len() > 0,
{
    let mut r: Vec<String> = Vec::new();
    let no_meta = meta.is_none();
    match meta {
        Some((t, a)) => {
            let mut base = t;
            base.append(" ");
            base.append(a.as_str());
            proof {
                reveal_strlit(" ");
            }
            let mut q2 = base.clone();
            q2.append(" official audio");
            let mut q3 = base.clone();
            q3.append(" lyrics");
            let mut q4 = base.clone();
            q4.append(" topic");
            r.push(base);
            r.push(q2);
            r.push(q3);
            r.push(q4);
        },
        None => {},
    }
    let no_id = track_id.is_none();
    match track_id {
        Some(id) => {
            let mut q2 = "spotify ".to_owned();
            q2.append(id.as_str());
            let mut q3 = "spotify track ".to_owned();
            q3.append(id.as_str());
            r.push(id);
            r.push(q2);
            r.push(q3);
        },
        None => {},
    }
    if no_meta && no_id {
        r.push("spotify track".to_owned());
    }
    proof {
        assert(crate::commands::views_of(r@) =~= spec_spotify_queries(meta, track_id));
    }
    r
}

/// The degraded placeholder produced when every search query has failed:
/// a synthetic search-by-best-guess reference, so the caller can proceed
/// rather than abort.
pub fn spotify_fallback_info(queries: &Vec<String>) -> (r: VideoInfo)
    ensures
        r.title@ == "Spotify Track"@,
        r.duration_secs is None,
        r.thumbnail is None,
        r.uploader is Some && r.uploader->0@ == "Unknown Artist"@,
        r.view_count is None,
        queries@.len() > 0 ==> r.video_url is Some && r.video_url->0@ == "ytsearch1:"@
            + queries@[0]@,
        queries@.len() == 0 ==> r.video_url is None,
        r.error is None,
{
    let video_url = if queries.len() > 0 {
        let mut u = "ytsearch1:".to_owned();
        u.append(queries[0].as_str());
        Some(u)
    } else {
        None
    };
    VideoInfo {
        title: "Spotify Track".to_owned(),
        duration_secs: None,
        thumbnail: None,
        uploader: Some("Unknown Artist".to_owned()),
        view_count: None,
        video_url,
        error: None,
    }
}

} // verus!
