//! Settings projection: reads the settings-store document and extracts the
//! strongly-typed subset of fields the orchestration commands need. The
//! projection never fails: an absent or mistyped field falls back to its
//! documented built-in default, so schema drift in the store can never block
//! an orchestration attempt.

use vstd::prelude::*;
use crate::errors::OrchestratorError;
use crate::json::{
    json_doc_of, json_text_wellformed, parse_json, spec_as_i64, spec_as_u64, spec_get, JsonValue,
};

verus! {

/// The download-side settings snapshot the command builders consume.
#[derive(Debug, Clone)]
pub struct OrchestrationSettings {
    pub download_path: String,
    pub extract_audio: bool,
    pub audio_format: String,
    pub audio_quality: String,
    pub write_subtitles: bool,
    pub write_thumbnail: bool,
    pub write_description: bool,
    pub write_info: bool,
    pub write_comments: bool,
    pub retries: u64,
    pub fragment_retries: u64,
    pub concurrent_fragments: u64,
    pub model_directory: String,
    pub enable_stem_extraction: bool,
}

/// The separation-engine settings snapshot. Numeric tuning parameters that
/// the engine reads as decimals travel as their decimal text, exactly as
/// they will be placed into the argument vector.
#[derive(Debug, Clone)]
pub struct SeparationSettings {
    pub model_filename: String,
    pub output_format: String,
    pub output_dir: String,
    pub model_file_dir: String,
    pub normalization: String,
    pub amplification: String,
    pub single_stem: Option<String>,
    pub sample_rate: u64,
    pub use_autocast: bool,
    pub use_gpu: bool,
    pub gpu_type: String,
    pub mdx_segment_size: u64,
    pub mdx_overlap: String,
    pub mdx_batch_size: u64,
    pub mdx_enable_denoise: bool,
    pub vr_batch_size: u64,
    pub vr_window_size: u64,
    pub vr_aggression: u64,
    pub vr_enable_tta: bool,
    pub vr_high_end_process: bool,
    pub vr_enable_post_process: bool,
    pub vr_post_process_threshold: String,
    pub demucs_segment_size: String,
    pub demucs_shifts: u64,
    pub demucs_overlap: String,
    pub demucs_segments_enabled: bool,
    pub mdxc_segment_size: u64,
    pub mdxc_override_model_segment_size: bool,
    pub mdxc_overlap: u64,
    pub mdxc_batch_size: u64,
    pub mdxc_pitch_shift: i64,
}

/// A string field, or the default when absent or not a string.
pub open spec fn spec_str_field_or(doc: JsonValue, key: Seq<char>, dflt: Seq<char>) -> Seq<char> {
    match spec_get(doc, key) {
        Some(v) => match v {
            JsonValue::Str(s) => s@,
            _ => dflt,
        },
        None => dflt,
    }
}

/// A boolean field, or the default when absent or not a boolean.
pub open spec fn spec_bool_field_or(doc: JsonValue, key: Seq<char>, dflt: bool) -> bool {
    match spec_get(doc, key) {
        Some(v) => match v {
            JsonValue::Bool(b) => b,
            _ => dflt,
        },
        None => dflt,
    }
}

/// An unsigned integer field, or the default when absent or unreadable.
pub open spec fn spec_u64_field_or(doc: JsonValue, key: Seq<char>, dflt: u64) -> u64 {
    match spec_get(doc, key) {
        Some(v) => match spec_as_u64(v) {
            Some(n) => n,
            None => dflt,
        },
        None => dflt,
    }
}

/// A signed integer field, or the default when absent or unreadable.
pub open spec fn spec_i64_field_or(doc: JsonValue, key: Seq<char>, dflt: i64) -> i64 {
    match spec_get(doc, key) {
        Some(v) => match spec_as_i64(v) {
            Some(n) => n,
            None => dflt,
        },
        None => dflt,
    }
}

/// A numeric field's decimal text, or the default when absent or not a
/// number.
pub open spec fn spec_num_text_or(doc: JsonValue, key: Seq<char>, dflt: Seq<char>) -> Seq<char> {
    match spec_get(doc, key) {
        Some(v) => match v {
            JsonValue::Num(s) => s@,
            _ => dflt,
        },
        None => dflt,
    }
}

/// An optional string field: present exactly when the field is a string.
pub open spec fn spec_opt_str_field(doc: JsonValue, key: Seq<char>) -> Option<Seq<char>> {
    match spec_get(doc, key) {
        Some(v) => match v {
            JsonValue::Str(s) => Some(s@),
            _ => None,
        },
        None => None,
    }
}

/// Reads a string field with a default.
pub fn str_field_or(doc: &JsonValue, key: &str, dflt: &str) -> (r: String)
    ensures
        r@ == spec_str_field_or(*doc, key@, dflt@),
{
    match doc.get(key) {
        Some(v) => match v.as_str() {
            Some(s) => s.clone(),
            None => dflt.to_owned(),
        },
        None => dflt.to_owned(),
    }
}

/// Reads a boolean field with a default.
pub fn bool_field_or(doc: &JsonValue, key: &str, dflt: bool) -> (r: bool)
    ensures
        r == spec_bool_field_or(*doc, key@, dflt),
{
    match doc.get(key) {
        Some(v) => match v.as_bool() {
            Some(b) => b,
            None => dflt,
        },
        None => dflt,
    }
}

/// Reads an unsigned integer field with a default.
pub fn u64_field_or(doc: &JsonValue, key: &str, dflt: u64) -> (r: u64)
    ensures
        r == spec_u64_field_or(*doc, key@, dflt),
{
    match doc.get(key) {
        Some(v) => match v.as_u64() {
            Some(n) => n,
            None => dflt,
        },
        None => dflt,
    }
}

/// Reads a signed integer field with a default.
pub fn i64_field_or(doc: &JsonValue, key: &str, dflt: i64) -> (r: i64)
    ensures
        r == spec_i64_field_or(*doc, key@, dflt),
{
    match doc.get(key) {
        Some(v) => match v.as_i64() {
            Some(n) => n,
            None => dflt,
        },
        None => dflt,
    }
}

/// Reads a numeric field's decimal text with a default.
pub fn num_text_or(doc: &JsonValue, key: &str, dflt: &str) -> (r: String)
    ensures
        r@ == spec_num_text_or(*doc, key@, dflt@),
{
    match doc.get(key) {
        Some(v) => match v.as_num_text() {
            Some(s) => s.clone(),
            None => dflt.to_owned(),
        },
        None => dflt.to_owned(),
    }
}

/// An optional unsigned integer field: present exactly when the field is
/// a number readable as an unsigned integer.
pub open spec fn spec_opt_u64_field(doc: JsonValue, key: Seq<char>) -> Option<u64> {
    match spec_get(doc, key) {
        Some(v) => spec_as_u64(v),
        None => None,
    }
}

/// Reads an optional unsigned integer field.
pub fn opt_u64_field(doc: &JsonValue, key: &str) -> (r: Option<u64>)
    ensures
        r == spec_opt_u64_field(*doc, key@),
{
    match doc.get(key) {
        Some(v) => v.as_u64(),
        None => None,
    }
}

/// Reads an optional string field.
pub fn opt_str_field(doc: &JsonValue, key: &str) -> (r: Option<String>)
    ensures
        match r {
            Some(s) => spec_opt_str_field(*doc, key@) == Some(s@),
            None => spec_opt_str_field(*doc, key@) is None,
        },
{
    match doc.get(key) {
        Some(v) => match v.as_str() {
            Some(s) => Some(s.clone()),
            None => None,
        },
        None => None,
    }
}


/// `r` is the download-side projection of `doc` with the given fallbacks.
pub open spec fn is_projection_of(
    r: OrchestrationSettings,
    doc: JsonValue,
    dl: Seq<char>,
    md: Seq<char>,
) -> bool {
    &&& r.download_path@ == spec_str_field_or(doc, "download_path"@, dl)
    &&& r.extract_audio == spec_bool_field_or(doc, "extract_audio"@, true)
    &&& r.audio_format@ == spec_str_field_or(doc, "audio_format"@, "mp3"@)
    &&& r.audio_quality@ == spec_str_field_or(doc, "audio_quality"@, "0"@)
    &&& r.write_subtitles == spec_bool_field_or(doc, "write_subtitles"@, false)
    &&& r.write_thumbnail == spec_bool_field_or(doc, "write_thumbnail"@, false)
    &&& r.write_description == spec_bool_field_or(doc, "write_description"@, false)
    &&& r.write_info == spec_bool_field_or(doc, "write_info"@, false)
    &&& r.write_comments == spec_bool_field_or(doc, "write_comments"@, false)
    &&& r.retries == spec_u64_field_or(doc, "retries"@, 10)
    &&& r.fragment_retries == spec_u64_field_or(doc, "fragment_retries"@, 10)
    &&& r.concurrent_fragments == spec_u64_field_or(doc, "concurrent_fragments"@, 1)
    &&& r.model_directory@ == spec_str_field_or(doc, "model_directory"@, md)
    &&& r.enable_stem_extraction == spec_bool_field_or(doc, "enable_stem_extraction"@, false)
}

/// `r` is the separation-engine projection of `doc`.
pub open spec fn is_separation_projection_of(r: SeparationSettings, doc: JsonValue) -> bool {
    &&& r.model_filename@ == spec_str_field_or(
        doc,
        "model_filename"@,
        "model_bs_roformer_ep_317_sdr_12.9755.ckpt"@,
    )
    &&& r.output_format@ == spec_str_field_or(doc, "output_format"@, "WAV"@)
    &&& r.output_dir@ == spec_str_field_or(doc, "output_dir"@, ""@)
    &&& r.model_file_dir@ == spec_str_field_or(doc, "model_file_dir"@, ""@)
    &&& r.normalization@ == spec_num_text_or(doc, "normalization"@, "0.9"@)
    &&& r.amplification@ == spec_num_text_or(doc, "amplification"@, "0.0"@)
    &&& (match r.single_stem {
        Some(s) => spec_opt_str_field(doc, "single_stem"@) == Some(s@),
        None => spec_opt_str_field(doc, "single_stem"@) is None,
    })
    &&& r.sample_rate == spec_u64_field_or(doc, "sample_rate"@, 44100)
    &&& r.use_autocast == spec_bool_field_or(doc, "use_autocast"@, false)
    &&& r.use_gpu == spec_bool_field_or(doc, "use_gpu"@, true)
    &&& r.gpu_type@ == spec_str_field_or(doc, "gpu_type"@, "auto"@)
    &&& r.mdx_segment_size == spec_u64_field_or(doc, "mdx_segment_size"@, 256)
    &&& r.mdx_overlap@ == spec_num_text_or(doc, "mdx_overlap"@, "0.25"@)
    &&& r.mdx_batch_size == spec_u64_field_or(doc, "mdx_batch_size"@, 1)
    &&& r.mdx_enable_denoise == spec_bool_field_or(doc, "mdx_enable_denoise"@, false)
    &&& r.vr_batch_size == spec_u64_field_or(doc, "vr_batch_size"@, 1)
    &&& r.vr_window_size == spec_u64_field_or(doc, "vr_window_size"@, 512)
    &&& r.vr_aggression == spec_u64_field_or(doc, "vr_aggression"@, 5)
    &&& r.vr_enable_tta == spec_bool_field_or(doc, "vr_enable_tta"@, false)
    &&& r.vr_high_end_process == spec_bool_field_or(doc, "vr_high_end_process"@, false)
    &&& r.vr_enable_post_process == spec_bool_field_or(doc, "vr_enable_post_process"@, false)
    &&& r.vr_post_process_threshold@ == spec_num_text_or(
        doc,
        "vr_post_process_threshold"@,
        "0.2"@,
    )
    &&& r.demucs_segment_size@ == spec_str_field_or(doc, "demucs_segment_size"@, "Default"@)
    &&& r.demucs_shifts == spec_u64_field_or(doc, "demucs_shifts"@, 2)
    &&& r.demucs_overlap@ == spec_num_text_or(doc, "demucs_overlap"@, "0.25"@)
    &&& r.demucs_segments_enabled == spec_bool_field_or(doc, "demucs_segments_enabled"@, true)
    &&& r.mdxc_segment_size == spec_u64_field_or(doc, "mdxc_segment_size"@, 256)
    &&& r.mdxc_override_model_segment_size == spec_bool_field_or(
        doc,
        "mdxc_override_model_segment_size"@,
        false,
    )
    &&& r.mdxc_overlap == spec_u64_field_or(doc, "mdxc_overlap"@, 8)
    &&& r.mdxc_batch_size == spec_u64_field_or(doc, "mdxc_batch_size"@, 1)
    &&& r.mdxc_pitch_shift == spec_i64_field_or(doc, "mdxc_pitch_shift"@, 0)
}

/// Projects the download-side settings out of the settings-store document.
/// Never fails: every absent or mistyped field takes its documented default.
/// The two path arguments are the environment-derived fallbacks for the
/// download directory and the model directory.
pub fn project_settings(
    doc: &JsonValue,
    default_download_path: &str,
    default_model_dir: &str,
) -> (r: OrchestrationSettings)
    ensures
        is_projection_of(r, *doc, default_download_path@, default_model_dir@),
{
    OrchestrationSettings {
        download_path: str_field_or(doc, "download_path", default_download_path),
        extract_audio: bool_field_or(doc, "extract_audio", true),
        audio_format: str_field_or(doc, "audio_format", "mp3"),
        audio_quality: str_field_or(doc, "audio_quality", "0"),
        write_subtitles: bool_field_or(doc, "write_subtitles", false),
        write_thumbnail: bool_field_or(doc, "write_thumbnail", false),
        write_description: bool_field_or(doc, "write_description", false),
        write_info: bool_field_or(doc, "write_info", false),
        write_comments: bool_field_or(doc, "write_comments", false),
        retries: u64_field_or(doc, "retries", 10),
        fragment_retries: u64_field_or(doc, "fragment_retries", 10),
        concurrent_fragments: u64_field_or(doc, "concurrent_fragments", 1),
        model_directory: str_field_or(doc, "model_directory", default_model_dir),
        enable_stem_extraction: bool_field_or(doc, "enable_stem_extraction", false),
    }
}

/// Validates a settings payload before it is persisted: accepted exactly
/// when the text is one well-formed JSON document, so a malformed payload
/// can never reach the settings store.
pub fn check_settings_payload(s: &str) -> (r: Result<(), OrchestratorError>)
    ensures
        r is Ok <==> json_text_wellformed(s@),
        r is Err ==> r->Err_0 is InvalidInput,
{
    match parse_json(s) {
        Some(_) => Ok(()),
        None => Err(OrchestratorError::InvalidInput("Invalid JSON".to_owned())),
    }
}

/// The sub-document the separation projection reads: the
/// `separation_settings` field, or nothing at all when absent.
pub open spec fn spec_separation_doc(doc: JsonValue) -> JsonValue {
    match spec_get(doc, "separation_settings"@) {
        Some(v) => v,
        None => JsonValue::Null,
    }
}

/// Projects both settings snapshots straight out of the settings-store
/// text. Never fails: well-formed text projects the document it denotes;
/// malformed text projects every field to its default, exactly as an
/// all-absent document would.
pub fn project_settings_text(
    text: &str,
    default_download_path: &str,
    default_model_dir: &str,
) -> (r: (OrchestrationSettings, SeparationSettings))
    ensures
        json_text_wellformed(text@) ==> is_projection_of(
            r.0,
            json_doc_of(text@),
            default_download_path@,
            default_model_dir@,
        ) && is_separation_projection_of(r.1, spec_separation_doc(json_doc_of(text@))),
        !json_text_wellformed(text@) ==> is_projection_of(
            r.0,
            JsonValue::Null,
            default_download_path@,
            default_model_dir@,
        ) && is_separation_projection_of(r.1, JsonValue::Null),
{
    match parse_json(text) {
        Some(doc) => {
            let main = project_settings(&doc, default_download_path, default_model_dir);
            let sep = match doc.get("separation_settings") {
                Some(v) => {
                    let sep = project_separation_settings(v);
                    assert(is_separation_projection_of(sep, spec_separation_doc(doc)));
                    sep
                },
                None => {
                    let sep = project_separation_settings(&JsonValue::Null);
                    assert(is_separation_projection_of(sep, spec_separation_doc(doc)));
                    sep
                },
            };
            let result = (main, sep);
            proof {
                assert(is_projection_of(
                    result.0,
                    doc,
                    default_download_path@,
                    default_model_dir@,
                ) && is_separation_projection_of(result.1, spec_separation_doc(doc)));
            }
            result
        },
        None => {
            let main = project_settings(&JsonValue::Null, default_download_path, default_model_dir);
            let sep = project_separation_settings(&JsonValue::Null);
            let result = (main, sep);
            proof {
                assert(spec_separation_doc(JsonValue::Null) == JsonValue::Null);
                assert(is_projection_of(
                    result.0,
                    JsonValue::Null,
                    default_download_path@,
                    default_model_dir@,
                ) && is_separation_projection_of(result.1, spec_separation_doc(JsonValue::Null)));
            }
            result
        },
    }
}

/// A field missing from the document always projects to its default; in
/// particular a document without a `retries` field yields the built-in
/// retry count rather than failing.
pub proof fn lemma_missing_field_defaults(doc: JsonValue, key: Seq<char>, dflt: u64)
    requires
        spec_get(doc, key) is None,
    ensures
        spec_u64_field_or(doc, key, dflt) == dflt,
{
}

/// Projects the separation-engine settings out of the `separation_settings`
/// sub-document. Never fails; every field has its documented default.
pub fn project_separation_settings(doc: &JsonValue) -> (r: SeparationSettings)
    ensures
        is_separation_projection_of(r, *doc),
{
    SeparationSettings {
        model_filename: str_field_or(
            doc,
            "model_filename",
            "model_bs_roformer_ep_317_sdr_12.9755.ckpt",
        ),
        output_format: str_field_or(doc, "output_format", "WAV"),
        output_dir: str_field_or(doc, "output_dir", ""),
        model_file_dir: str_field_or(doc, "model_file_dir", ""),
        normalization: num_text_or(doc, "normalization", "0.9"),
        amplification: num_text_or(doc, "amplification", "0.0"),
        single_stem: opt_str_field(doc, "single_stem"),
        sample_rate: u64_field_or(doc, "sample_rate", 44100),
        use_autocast: bool_field_or(doc, "use_autocast", false),
        use_gpu: bool_field_or(doc, "use_gpu", true),
        gpu_type: str_field_or(doc, "gpu_type", "auto"),
        mdx_segment_size: u64_field_or(doc, "mdx_segment_size", 256),
        mdx_overlap: num_text_or(doc, "mdx_overlap", "0.25"),
        mdx_batch_size: u64_field_or(doc, "mdx_batch_size", 1),
        mdx_enable_denoise: bool_field_or(doc, "mdx_enable_denoise", false),
        vr_batch_size: u64_field_or(doc, "vr_batch_size", 1),
        vr_window_size: u64_field_or(doc, "vr_window_size", 512),
        vr_aggression: u64_field_or(doc, "vr_aggression", 5),
        vr_enable_tta: bool_field_or(doc, "vr_enable_tta", false),
        vr_high_end_process: bool_field_or(doc, "vr_high_end_process", false),
        vr_enable_post_process: bool_field_or(doc, "vr_enable_post_process", false),
        vr_post_process_threshold: num_text_or(doc, "vr_post_process_threshold", "0.2"),
        demucs_segment_size: str_field_or(doc, "demucs_segment_size", "Default"),
        demucs_shifts: u64_field_or(doc, "demucs_shifts", 2),
        demucs_overlap: num_text_or(doc, "demucs_overlap", "0.25"),
        demucs_segments_enabled: bool_field_or(doc, "demucs_segments_enabled", true),
        mdxc_segment_size: u64_field_or(doc, "mdxc_segment_size", 256),
        mdxc_override_model_segment_size: bool_field_or(
            doc,
            "mdxc_override_model_segment_size",
            false,
        ),
        mdxc_overlap: u64_field_or(doc, "mdxc_overlap", 8),
        mdxc_batch_size: u64_field_or(doc, "mdxc_batch_size", 1),
        mdxc_pitch_shift: i64_field_or(doc, "mdxc_pitch_shift", 0),
    }
}

} // verus!
