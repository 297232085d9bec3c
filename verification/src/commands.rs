//! Command construction: deterministic argument lists for the download tool,
//! the probe tool and the separation engine, built from classified input and
//! a projected settings snapshot. Nothing here touches the system; callers
//! hand the lists to a process spawner.

use vstd::prelude::*;
use crate::errors::OrchestratorError;
use crate::paths::{dirname, join_path, spec_dirname, spec_join_path};
use crate::settings::{OrchestrationSettings, SeparationSettings};
use crate::strutil::{
    contains_control, contains_seq, dec_rep, dec_rep_signed, digit_char, has_control, i64_to_dec,
    is_suffix_of, str_contains, str_ends_with, u64_to_dec,
};

verus! {

/// The views of an argument vector.
pub open spec fn views_of(v: Seq<String>) -> Seq<Seq<char>> {
    v.map_values(|s: String| s@)
}

/// Two decimal digits, zero-padded; longer when the value needs more.
pub open spec fn pad2(n: int) -> Seq<char> {
    if n < 10 {
        seq!['0', digit_char(n)]
    } else {
        dec_rep(n)
    }
}

/// `HH:MM:SS` rendering of a whole number of seconds.
pub open spec fn spec_hhmmss(total: int) -> Seq<char> {
    pad2(total / 3600) + seq![':'] + pad2((total % 3600) / 60) + seq![':'] + pad2(total % 60)
}

/// Renders a value as at least two zero-padded decimal digits.
fn pad2_exec(n: u64) -> (r: String)
    ensures
        r@ == pad2(n as int),
{
    if n < 10 {
        let mut r = "0".to_owned();
        r.append(crate::strutil::u64_to_dec(n).as_str());
        proof {
            reveal_strlit("0");
            assert(r@ =~= pad2(n as int));
        }
        r
    } else {
        u64_to_dec(n)
    }
}

/// Formats a whole number of seconds as `HH:MM:SS` timecode boundaries.
pub fn format_hhmmss(total: u64) -> (r: String)
    ensures
        r@ == spec_hhmmss(total as int),
{
    let h = total / 3600;
    let m = (total % 3600) / 60;
    let s = total % 60;
    let mut r = pad2_exec(h);
    r.append(":");
    r.append(pad2_exec(m).as_str());
    r.append(":");
    r.append(pad2_exec(s).as_str());
    proof {
        reveal_strlit(":");
        assert(r@ =~= spec_hhmmss(total as int));
    }
    r
}

/// Trim arguments for a requested time range, in whole seconds. With both
/// bounds given in order, a single section-trim argument; with one bound, a
/// post-process trim argument; never both, so the output is never trimmed
/// twice.
pub open spec fn spec_time_range_args(start: Option<u64>, end: Option<u64>) -> Seq<Seq<char>> {
    if start is Some && end is Some {
        if end->0 > start->0 {
            seq![
                "--download-sections"@,
                seq!['*'] + spec_hhmmss(start->0 as int) + seq!['-'] + spec_hhmmss(end->0 as int),
            ]
        } else {
            Seq::empty()
        }
    } else if start is Some {
        seq!["--postprocessor-args"@, "ffmpeg:-ss "@ + dec_rep(start->0 as int)]
    } else if end is Some && end->0 > 0 {
        seq!["--postprocessor-args"@, "ffmpeg:-t "@ + dec_rep(end->0 as int)]
    } else {
        Seq::empty()
    }
}

/// Builds the trim arguments for a requested time range.
pub fn build_time_range_args(start: Option<u64>, end: Option<u64>) -> (r: Vec<String>)
    ensures
        views_of(r@) == spec_time_range_args(start, end),
{
    let mut r: Vec<String> = Vec::new();
    match (start, end) {
        (Some(s), Some(e)) => {
            if e > s {
                r.push("--download-sections".to_owned());
                let mut range = "*".to_owned();
                range.append(format_hhmmss(s).as_str());
                range.append("-");
                range.append(format_hhmmss(e).as_str());
                proof {
                    reveal_strlit("*");
                    reveal_strlit("-");
                    assert(range@ =~= seq!['*'] + spec_hhmmss(s as int) + seq!['-'] + spec_hhmmss(
                        e as int,
                    ));
                }
                r.push(range);
            }
        },
        (Some(s), None) => {
            r.push("--postprocessor-args".to_owned());
            let mut a = "ffmpeg:-ss ".to_owned();
            a.append(u64_to_dec(s).as_str());
            r.push(a);
        },
        (None, Some(e)) => {
            if e > 0 {
                r.push("--postprocessor-args".to_owned());
                let mut a = "ffmpeg:-t ".to_owned();
                a.append(u64_to_dec(e).as_str());
                r.push(a);
            }
        },
        (None, None) => {},
    }
    proof {
        assert(views_of(r@) =~= spec_time_range_args(start, end));
    }
    r
}

/// The two trimming strategies are mutually exclusive: no argument list ever
/// carries both the section-trim flag and the post-process trim flag, so the
/// same call can never trim twice.
pub proof fn lemma_trim_modes_exclusive(start: Option<u64>, end: Option<u64>)
    ensures
        !(spec_time_range_args(start, end).contains("--download-sections"@)
            && spec_time_range_args(start, end).contains("--postprocessor-args"@)),
{
    reveal_strlit("--download-sections");
    reveal_strlit("--postprocessor-args");
    assert("--download-sections"@.len() == 19);
    assert("--postprocessor-args"@.len() == 20);
    let args = spec_time_range_args(start, end);
    if start is Some && end is Some {
        if end->0 > start->0 {
            assert(args[1][0] == '*');
            assert(!args.contains("--postprocessor-args"@)) by {
                assert(args[0] != "--postprocessor-args"@);
                assert(args[1] != "--postprocessor-args"@);
                assert(forall|i: int|
                    0 <= i < args.len() && args[i] == "--postprocessor-args"@ ==> false);
            }
        }
    } else if start is Some {
        assert(args[1][0] == 'f') by {
            reveal_strlit("ffmpeg:-ss ");
        }
        assert(args[0] != "--download-sections"@);
        assert(args[1] != "--download-sections"@);
        assert(!args.contains("--download-sections"@)) by {
            assert(forall|i: int|
                0 <= i < args.len() && args[i] == "--download-sections"@ ==> false);
        }
    } else if end is Some && end->0 > 0 {
        assert(args[1][0] == 'f') by {
            reveal_strlit("ffmpeg:-t ");
        }
        assert(args[0] != "--download-sections"@);
        assert(args[1] != "--download-sections"@);
        assert(!args.contains("--download-sections"@)) by {
            assert(forall|i: int|
                0 <= i < args.len() && args[i] == "--download-sections"@ ==> false);
        }
    }
}

/// The per-artifact write flags that the settings enable. Disabled settings
/// contribute nothing: no flag is ever emitted empty.
pub open spec fn spec_feature_flag_args(s: OrchestrationSettings) -> Seq<Seq<char>> {
    (if s.write_subtitles {
        seq!["--write-subs"@]
    } else {
        Seq::empty()
    }) + (if s.write_thumbnail {
        seq!["--write-thumbnail"@]
    } else {
        Seq::empty()
    }) + (if s.write_description {
        seq!["--write-description"@]
    } else {
        Seq::empty()
    }) + (if s.write_info {
        seq!["--write-info-json"@]
    } else {
        Seq::empty()
    }) + (if s.write_comments {
        seq!["--write-comments"@]
    } else {
        Seq::empty()
    })
}

/// The leading, input-independent part of the download tool's argument
/// list: audio extraction and format flags when enabled, the transcoder
/// location hint when one is needed, output template and directory, and
/// the per-artifact write flags (dropped on the reduced retry attempt).
pub open spec fn spec_download_base(
    s: OrchestrationSettings,
    downloads_dir: Seq<char>,
    ffmpeg_location: Option<Seq<char>>,
    reduced: bool,
) -> Seq<Seq<char>> {
    (if s.extract_audio {
        seq![
            "--extract-audio"@,
            "--audio-format"@,
            s.audio_format@,
            "--audio-quality"@,
            s.audio_quality@,
        ]
    } else {
        Seq::empty()
    }) + (match ffmpeg_location {
        Some(loc) => seq!["--ffmpeg-location"@, loc],
        None => Seq::empty(),
    }) + seq!["-o"@, "%(title)s.%(ext)s"@, "-P"@, downloads_dir, "--no-playlist"@, "--no-warnings"@]
        + (if reduced {
        Seq::empty()
    } else {
        spec_feature_flag_args(s)
    })
}

/// The download tool's full argument list: the base part, the trim
/// arguments (kept on retry), and the resolved input reference as the
/// final positional argument.
pub open spec fn spec_download_args(
    input_ref: Seq<char>,
    start: Option<u64>,
    end: Option<u64>,
    s: OrchestrationSettings,
    downloads_dir: Seq<char>,
    ffmpeg_location: Option<Seq<char>>,
    reduced: bool,
) -> Seq<Seq<char>> {
    spec_download_base(s, downloads_dir, ffmpeg_location, reduced) + spec_time_range_args(
        start,
        end,
    ) + seq![input_ref]
}

/// Builds the base part of the download tool's argument list.
#[verifier::rlimit(60)]
fn build_download_base(
    s: &OrchestrationSettings,
    downloads_dir: &str,
    ffmpeg_location: Option<&str>,
    reduced: bool,
) -> (r: Vec<String>)
    ensures
        views_of(r@) == spec_download_base(
            *s,
            downloads_dir@,
            match ffmpeg_location {
                Some(loc) => Some(loc@),
                None => None,
            },
            reduced,
        ),
{
    let mut r: Vec<String> = Vec::new();
    if s.extract_audio {
        r.push("--extract-audio".to_owned());
        r.push("--audio-format".to_owned());
        r.push(s.audio_format.clone());
        r.push("--audio-quality".to_owned());
        r.push(s.audio_quality.clone());
    }
    match ffmpeg_location {
        Some(loc) => {
            r.push("--ffmpeg-location".to_owned());
            r.push(loc.to_owned());
        },
        None => {},
    }
    r.push("-o".to_owned());
    r.push("%(title)s.%(ext)s".to_owned());
    r.push("-P".to_owned());
    r.push(downloads_dir.to_owned());
    r.push("--no-playlist".to_owned());
    r.push("--no-warnings".to_owned());
    if !reduced {
        if s.write_subtitles {
            r.push("--write-subs".to_owned());
        }
        if s.write_thumbnail {
            r.push("--write-thumbnail".to_owned());
        }
        if s.write_description {
            r.push("--write-description".to_owned());
        }
        if s.write_info {
            r.push("--write-info-json".to_owned());
        }
        if s.write_comments {
            r.push("--write-comments".to_owned());
        }
    }
    proof {
        assert(views_of(r@) =~= spec_download_base(
            *s,
            downloads_dir@,
            match ffmpeg_location {
                Some(loc) => Some(loc@),
                None => None,
            },
            reduced,
        ));
    }
    r
}

/// Builds the download tool's argument list. `reduced` selects the
/// minimal-viable retry form, which drops the per-artifact write flags but
/// keeps any trim arguments.
pub fn build_download_args(
    input_ref: &str,
    start: Option<u64>,
    end: Option<u64>,
    s: &OrchestrationSettings,
    downloads_dir: &str,
    ffmpeg_location: Option<&str>,
    reduced: bool,
) -> (r: Vec<String>)
    ensures
        views_of(r@) == spec_download_args(
            input_ref@,
            start,
            end,
            *s,
            downloads_dir@,
            match ffmpeg_location {
                Some(loc) => Some(loc@),
                None => None,
            },
            reduced,
        ),
{
    let mut r = build_download_base(s, downloads_dir, ffmpeg_location, reduced);
    let mut trims = build_time_range_args(start, end);
    r.append(&mut trims);
    r.push(input_ref.to_owned());
    proof {
        assert(views_of(r@) =~= spec_download_args(
            input_ref@,
            start,
            end,
            *s,
            downloads_dir@,
            match ffmpeg_location {
                Some(loc) => Some(loc@),
                None => None,
            },
            reduced,
        ));
    }
    r
}

/// The probe tool's argument list for structured metadata about a local
/// file.
pub open spec fn spec_probe_args(file_path: Seq<char>) -> Seq<Seq<char>> {
    seq![
        "-v"@,
        "quiet"@,
        "-print_format"@,
        "json"@,
        "-show_format"@,
        "-show_streams"@,
        file_path,
    ]
}

/// Builds the probe tool's argument list.
pub fn build_probe_args(file_path: &str) -> (r: Vec<String>)
    ensures
        views_of(r@) == spec_probe_args(file_path@),
{
    let mut r: Vec<String> = Vec::new();
    r.push("-v".to_owned());
    r.push("quiet".to_owned());
    r.push("-print_format".to_owned());
    r.push("json".to_owned());
    r.push("-show_format".to_owned());
    r.push("-show_streams".to_owned());
    r.push(file_path.to_owned());
    proof {
        assert(views_of(r@) =~= spec_probe_args(file_path@));
    }
    r
}

/// The download tool's argument list for a metadata-only query.
pub open spec fn spec_metadata_query_args(url: Seq<char>) -> Seq<Seq<char>> {
    seq!["--dump-json"@, "--no-playlist"@, "--no-warnings"@, url]
}

/// Builds the metadata-only query for one reference.
pub fn build_metadata_query_args(url: &str) -> (r: Vec<String>)
    ensures
        views_of(r@) == spec_metadata_query_args(url@),
{
    let mut r: Vec<String> = Vec::new();
    r.push("--dump-json".to_owned());
    r.push("--no-playlist".to_owned());
    r.push("--no-warnings".to_owned());
    r.push(url.to_owned());
    proof {
        assert(views_of(r@) =~= spec_metadata_query_args(url@));
    }
    r
}

/// The download tool's argument list for a one-result streaming search.
pub open spec fn spec_search_query_args(query: Seq<char>) -> Seq<Seq<char>> {
    seq!["ytsearch1:"@ + query, "--dump-json"@, "--no-playlist"@, "--no-warnings"@]
}

/// Builds the one-result search query for one ranked candidate.
pub fn build_search_query_args(query: &str) -> (r: Vec<String>)
    ensures
        views_of(r@) == spec_search_query_args(query@),
{
    let mut r: Vec<String> = Vec::new();
    let mut q = "ytsearch1:".to_owned();
    q.append(query);
    r.push(q);
    r.push("--dump-json".to_owned());
    r.push("--no-playlist".to_owned());
    r.push("--no-warnings".to_owned());
    proof {
        assert(views_of(r@) =~= spec_search_query_args(query@));
    }
    r
}

/// The separation engine's argument list for fetching one model file.
pub open spec fn spec_model_download_args(
    model_filename: Seq<char>,
    model_dir: Seq<char>,
) -> Seq<Seq<char>> {
    seq!["--download_model_only"@, "-m"@, model_filename, "--model_file_dir"@, model_dir]
}

/// Builds the model-download argument list.
pub fn build_model_download_args(model_filename: &str, model_dir: &str) -> (r: Vec<String>)
    ensures
        views_of(r@) == spec_model_download_args(model_filename@, model_dir@),
{
    let mut r: Vec<String> = Vec::new();
    r.push("--download_model_only".to_owned());
    r.push("-m".to_owned());
    r.push(model_filename.to_owned());
    r.push("--model_file_dir".to_owned());
    r.push(model_dir.to_owned());
    proof {
        assert(views_of(r@) =~= spec_model_download_args(model_filename@, model_dir@));
    }
    r
}

/// The four supported separation-engine families. The family is chosen by
/// inspecting the model filename, and exactly one family's parameter group
/// is ever appended to a call.
#[derive(Debug, Clone, Copy, PartialEq, Eq, Structural)]
pub enum EngineFamily {
    Mdx,
    Vr,
    Demucs,
    MdxC,
}

/// Engine family of a model file, from its extension or a distinguishing
/// substring of its name; nothing when the filename matches no family.
pub open spec fn spec_engine_family(model: Seq<char>) -> Option<EngineFamily> {
    if is_suffix_of(".onnx"@, model) {
        Some(EngineFamily::Mdx)
    } else if is_suffix_of(".pth"@, model) {
        Some(EngineFamily::Vr)
    } else if contains_seq(model, "htdemucs"@) || is_suffix_of(".yaml"@, model) {
        Some(EngineFamily::Demucs)
    } else if contains_seq(model, "roformer"@) || is_suffix_of(".ckpt"@, model) {
        Some(EngineFamily::MdxC)
    } else {
        None
    }
}

/// Detects the engine family of a model filename.
pub fn engine_family_of(model: &str) -> (r: Option<EngineFamily>)
    ensures
        r == spec_engine_family(model@),
{
    if str_ends_with(model, ".onnx") {
        Some(EngineFamily::Mdx)
    } else if str_ends_with(model, ".pth") {
        Some(EngineFamily::Vr)
    } else if str_contains(model, "htdemucs") || str_ends_with(model, ".yaml") {
        Some(EngineFamily::Demucs)
    } else if str_contains(model, "roformer") || str_ends_with(model, ".ckpt") {
        Some(EngineFamily::MdxC)
    } else {
        None
    }
}

/// The parameter group of the model's engine family: numeric and string
/// options as a flag followed by its value, boolean toggles as bare flags.
/// At most one family's group is present, and none for an unrecognized
/// model.
pub open spec fn spec_family_args(s: SeparationSettings) -> Seq<Seq<char>> {
    match spec_engine_family(s.model_filename@) {
        Some(EngineFamily::Mdx) => seq![
            "--mdx_segment_size"@,
            dec_rep(s.mdx_segment_size as int),
            "--mdx_overlap"@,
            s.mdx_overlap@,
            "--mdx_batch_size"@,
            dec_rep(s.mdx_batch_size as int),
        ] + (if s.mdx_enable_denoise {
            seq!["--mdx_enable_denoise"@]
        } else {
            Seq::empty()
        }),
        Some(EngineFamily::Vr) => seq![
            "--vr_batch_size"@,
            dec_rep(s.vr_batch_size as int),
            "--vr_window_size"@,
            dec_rep(s.vr_window_size as int),
            "--vr_aggression"@,
            dec_rep(s.vr_aggression as int),
        ] + (if s.vr_enable_tta {
            seq!["--vr_enable_tta"@]
        } else {
            Seq::empty()
        }) + (if s.vr_high_end_process {
            seq!["--vr_high_end_process"@]
        } else {
            Seq::empty()
        }) + (if s.vr_enable_post_process {
            seq![
                "--vr_enable_post_process"@,
                "--vr_post_process_threshold"@,
                s.vr_post_process_threshold@,
            ]
        } else {
            Seq::empty()
        }),
        Some(EngineFamily::Demucs) => seq![
            "--demucs_segment_size"@,
            s.demucs_segment_size@,
            "--demucs_shifts"@,
            dec_rep(s.demucs_shifts as int),
            "--demucs_overlap"@,
            s.demucs_overlap@,
        ] + (if s.demucs_segments_enabled {
            seq!["--demucs_segments_enabled"@]
        } else {
            Seq::empty()
        }),
        Some(EngineFamily::MdxC) => seq![
            "--mdxc_segment_size"@,
            dec_rep(s.mdxc_segment_size as int),
            "--mdxc_overlap"@,
            dec_rep(s.mdxc_overlap as int),
            "--mdxc_batch_size"@,
            dec_rep(s.mdxc_batch_size as int),
            "--mdxc_pitch_shift"@,
            dec_rep_signed(s.mdxc_pitch_shift as int),
        ] + (if s.mdxc_override_model_segment_size {
            seq!["--mdxc_override_model_segment_size"@]
        } else {
            Seq::empty()
        }),
        None => Seq::empty(),
    }
}

/// Builds the engine-family parameter group.
#[verifier::rlimit(60)]
pub fn build_family_args(s: &SeparationSettings) -> (r: Vec<String>)
    ensures
        views_of(r@) == spec_family_args(*s),
{
    let mut r: Vec<String> = Vec::new();
    match engine_family_of(s.model_filename.as_str()) {
        Some(EngineFamily::Mdx) => {
            r.push("--mdx_segment_size".to_owned());
            r.push(u64_to_dec(s.mdx_segment_size));
            r.push("--mdx_overlap".to_owned());
            r.push(s.mdx_overlap.clone());
            r.push("--mdx_batch_size".to_owned());
            r.push(u64_to_dec(s.mdx_batch_size));
            if s.mdx_enable_denoise {
                r.push("--mdx_enable_denoise".to_owned());
            }
        },
        Some(EngineFamily::Vr) => {
            r.push("--vr_batch_size".to_owned());
            r.push(u64_to_dec(s.vr_batch_size));
            r.push("--vr_window_size".to_owned());
            r.push(u64_to_dec(s.vr_window_size));
            r.push("--vr_aggression".to_owned());
            r.push(u64_to_dec(s.vr_aggression));
            if s.vr_enable_tta {
                r.push("--vr_enable_tta".to_owned());
            }
            if s.vr_high_end_process {
                r.push("--vr_high_end_process".to_owned());
            }
            if s.vr_enable_post_process {
                r.push("--vr_enable_post_process".to_owned());
                r.push("--vr_post_process_threshold".to_owned());
                r.push(s.vr_post_process_threshold.clone());
            }
        },
        Some(EngineFamily::Demucs) => {
            r.push("--demucs_segment_size".to_owned());
            r.push(s.demucs_segment_size.clone());
            r.push("--demucs_shifts".to_owned());
            r.push(u64_to_dec(s.demucs_shifts));
            r.push("--demucs_overlap".to_owned());
            r.push(s.demucs_overlap.clone());
            if s.demucs_segments_enabled {
                r.push("--demucs_segments_enabled".to_owned());
            }
        },
        Some(EngineFamily::MdxC) => {
            r.push("--mdxc_segment_size".to_owned());
            r.push(u64_to_dec(s.mdxc_segment_size));
            r.push("--mdxc_overlap".to_owned());
            r.push(u64_to_dec(s.mdxc_overlap));
            r.push("--mdxc_batch_size".to_owned());
            r.push(u64_to_dec(s.mdxc_batch_size));
            r.push("--mdxc_pitch_shift".to_owned());
            r.push(i64_to_dec(s.mdxc_pitch_shift));
            if s.mdxc_override_model_segment_size {
                r.push("--mdxc_override_model_segment_size".to_owned());
            }
        },
        None => {},
    }
    proof {
        assert(views_of(r@) =~= spec_family_args(*s));
    }
    r
}

/// The separation engine's output directory: the configured one, or
/// `Separated` beside the input file when none is configured.
pub open spec fn spec_separation_output_dir(
    s: SeparationSettings,
    input_file: Seq<char>,
) -> Seq<char> {
    if s.output_dir@.len() > 0 {
        s.output_dir@
    } else {
        spec_join_path(spec_dirname(input_file), "Separated"@)
    }
}

/// Resolves the separation engine's output directory.
pub fn separation_output_dir(s: &SeparationSettings, input_file: &str) -> (r: String)
    ensures
        r@ == spec_separation_output_dir(*s, input_file@),
{
    if s.output_dir.as_str().unicode_len() > 0 {
        s.output_dir.clone()
    } else {
        join_path(dirname(input_file), "Separated")
    }
}

/// The separation engine's full argument list: model selector, output
/// directory, optional stem selector, optional model-directory override, the
/// engine family's parameter group, and the input file as the final
/// positional argument.
pub open spec fn spec_separation_args(
    s: SeparationSettings,
    input_file: Seq<char>,
    out_dir: Seq<char>,
) -> Seq<Seq<char>> {
    seq!["-m"@, s.model_filename@, "--output_dir"@, out_dir] + (match s.single_stem {
        Some(stem) => seq!["--single_stem"@, stem@],
        None => Seq::empty(),
    }) + (if s.model_file_dir@.len() > 0 {
        seq!["--model_file_dir"@, s.model_file_dir@]
    } else {
        Seq::empty()
    }) + spec_family_args(s) + seq![input_file]
}

/// No argument of the list holds an embedded NUL, CR or LF.
pub open spec fn args_clean(args: Seq<Seq<char>>) -> bool {
    forall|i: int| 0 <= i < args.len() ==> !has_control(#[trigger] args[i])
}

/// Builds the separation engine's argument list, resolving the output
/// directory first. Rejects the call, before any command could be spawned,
/// exactly when some argument value holds an embedded control character,
/// which would violate the engine's command-line contract.
#[verifier::rlimit(60)]
pub fn build_separation_args(s: &SeparationSettings, input_file: &str) -> (r: Result<
    Vec<String>,
    OrchestratorError,
>)
    ensures
        ({
            let args = spec_separation_args(
                *s,
                input_file@,
                spec_separation_output_dir(*s, input_file@),
            );
            &&& r is Ok <==> args_clean(args)
            &&& r is Ok ==> views_of(r->Ok_0@) == args
            &&& r is Err ==> r->Err_0 is InvalidInput
        }),
{
    let out_dir = separation_output_dir(s, input_file);
    let mut r: Vec<String> = Vec::new();
    r.push("-m".to_owned());
    r.push(s.model_filename.clone());
    r.push("--output_dir".to_owned());
    r.push(out_dir);
    match &s.single_stem {
        Some(stem) => {
            r.push("--single_stem".to_owned());
            r.push(stem.clone());
        },
        None => {},
    }
    if s.model_file_dir.as_str().unicode_len() > 0 {
        r.push("--model_file_dir".to_owned());
        r.push(s.model_file_dir.clone());
    }
    let mut fam = build_family_args(s);
    r.append(&mut fam);
    r.push(input_file.to_owned());
    proof {
        assert(views_of(r@) =~= spec_separation_args(
            *s,
            input_file@,
            spec_separation_output_dir(*s, input_file@),
        ));
    }
    let len = r.len();
    let mut i: usize = 0;
    while i < len
        invariant
            len == r@.len(),
            i <= len,
            views_of(r@) == spec_separation_args(
                *s,
                input_file@,
                spec_separation_output_dir(*s, input_file@),
            ),
            forall|j: int| 0 <= j < i ==> !has_control(#[trigger] views_of(r@)[j]),
        decreases len - i,
    {
        if contains_control(r[i].as_str()) {
            assert(has_control(views_of(r@)[i as int]));
            return Err(
                OrchestratorError::InvalidInput(
                    "argument value holds an embedded control character".to_owned(),
                ),
            );
        }
        i = i + 1;
    }
    assert(args_clean(views_of(r@)));
    Ok(r)
}

} // verus!
