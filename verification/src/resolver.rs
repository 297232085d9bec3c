//! Binary resolution: locates an external tool, preferring the ambient
//! process search path and falling back to a bundled resource. Every call
//! re-probes, so a tool installed mid-session becomes visible without a
//! restart. A resolution failure is terminal for the calling operation and
//! names the tool.

use vstd::prelude::*;
use crate::errors::OrchestratorError;

verus! {

/// Relies on which::which: whether the named tool resolves on the ambient
/// process search path. The answer depends on the environment, so nothing
/// further is assumed of it.
#[verifier::external_body]
fn tool_on_search_path(name: &str) -> bool {
    which::which(name).is_ok()
}

/// The resolution decision: a tool found on the search path is used by its
/// bare name (respecting any user-installed version); otherwise the bundled
/// candidate, when one exists, is used; otherwise resolution fails.
pub fn choose_binary(name: &str, on_path: bool, bundled: Option<String>) -> (r: Option<String>)
    ensures
        on_path ==> r is Some && r->0@ == name@,
        !on_path ==> r == bundled,
{
    if on_path {
        Some(name.to_owned())
    } else {
        bundled
    }
}

/// Resolves one tool. `bundled_existing` is the bundled candidate that the
/// caller has already confirmed to exist on disk, if any. The result is the
/// bare name or that candidate; resolution fails only with no candidate.
pub fn resolve_binary(name: &str, bundled_existing: Option<String>) -> (r: Option<String>)
    ensures
        r is Some ==> r->0@ == name@ || (bundled_existing is Some && r->0@
            == bundled_existing->0@),
        r is None ==> bundled_existing is None,
        bundled_existing is Some ==> r is Some,
{
    let on_path = tool_on_search_path(name);
    choose_binary(name, on_path, bundled_existing)
}

/// The bundled-resource relative path of the download tool's standalone
/// script, per platform.
pub fn ytdlp_bundled_resource(windows: bool) -> (r: String)
    ensures
        windows ==> r@ == "resources/yt-dlp-standalone.bat"@,
        !windows ==> r@ == "resources/yt-dlp-standalone.sh"@,
{
    if windows {
        "resources/yt-dlp-standalone.bat".to_owned()
    } else {
        "resources/yt-dlp-standalone.sh".to_owned()
    }
}

/// The bundled-resource relative path of the separation engine's standalone
/// script, per platform.
pub fn audio_separator_bundled_resource(windows: bool) -> (r: String)
    ensures
        windows ==> r@ == "resources/audio-separator-standalone.bat"@,
        !windows ==> r@ == "resources/audio-separator-standalone.sh"@,
{
    if windows {
        "resources/audio-separator-standalone.bat".to_owned()
    } else {
        "resources/audio-separator-standalone.sh".to_owned()
    }
}

/// The bundled-resource relative path of a transcoder-family binary, per
/// platform: under `resources/ffmpeg`, with the executable suffix on
/// Windows.
pub fn ff_bundled_resource(bin_name: &str, windows: bool) -> (r: String)
    ensures
        windows ==> r@ == "resources/ffmpeg/"@ + bin_name@ + ".exe"@,
        !windows ==> r@ == "resources/ffmpeg/"@ + bin_name@,
{
    let mut r = "resources/ffmpeg/".to_owned();
    r.append(bin_name);
    if windows {
        r.append(".exe");
    }
    r
}

/// Resolves the download tool, failing with its documented tool-named
/// error. Success is owed whenever a bundled candidate exists.
pub fn get_ytdlp_binary(bundled_existing: Option<String>) -> (r: Result<
    String,
    OrchestratorError,
>)
    ensures
        r is Ok ==> r->Ok_0@ == "yt-dlp"@ || (bundled_existing is Some && r->Ok_0@
            == bundled_existing->0@),
        bundled_existing is Some ==> r is Ok,
        r is Err ==> bundled_existing is None && r->Err_0 is BinaryNotFound
            && r->Err_0->BinaryNotFound_0@ == "yt-dlp"@,
{
    match resolve_binary("yt-dlp", bundled_existing) {
        Some(p) => Ok(p),
        None => Err(OrchestratorError::BinaryNotFound("yt-dlp".to_owned())),
    }
}

/// Resolves the transcoder, failing with its documented tool-named error.
pub fn get_ffmpeg_binary(bundled_existing: Option<String>) -> (r: Result<
    String,
    OrchestratorError,
>)
    ensures
        r is Ok ==> r->Ok_0@ == "ffmpeg"@ || (bundled_existing is Some && r->Ok_0@
            == bundled_existing->0@),
        bundled_existing is Some ==> r is Ok,
        r is Err ==> bundled_existing is None && r->Err_0 is BinaryNotFound
            && r->Err_0->BinaryNotFound_0@ == "ffmpeg"@,
{
    match resolve_binary("ffmpeg", bundled_existing) {
        Some(p) => Ok(p),
        None => Err(OrchestratorError::BinaryNotFound("ffmpeg".to_owned())),
    }
}

/// Resolves the probe tool, failing with its documented tool-named error.
pub fn get_ffprobe_binary(bundled_existing: Option<String>) -> (r: Result<
    String,
    OrchestratorError,
>)
    ensures
        r is Ok ==> r->Ok_0@ == "ffprobe"@ || (bundled_existing is Some && r->Ok_0@
            == bundled_existing->0@),
        bundled_existing is Some ==> r is Ok,
        r is Err ==> bundled_existing is None && r->Err_0 is BinaryNotFound
            && r->Err_0->BinaryNotFound_0@ == "ffprobe"@,
{
    match resolve_binary("ffprobe", bundled_existing) {
        Some(p) => Ok(p),
        None => Err(OrchestratorError::BinaryNotFound("ffprobe".to_owned())),
    }
}

/// Resolves the separation engine, failing with its documented tool-named
/// error.
pub fn get_audio_separator_binary(bundled_existing: Option<String>) -> (r: Result<
    String,
    OrchestratorError,
>)
    ensures
        r is Ok ==> r->Ok_0@ == "audio-separator"@ || (bundled_existing is Some && r->Ok_0@
            == bundled_existing->0@),
        bundled_existing is Some ==> r is Ok,
        r is Err ==> bundled_existing is None && r->Err_0 is BinaryNotFound
            && r->Err_0->BinaryNotFound_0@ == "audio-separator"@,
{
    match resolve_binary("audio-separator", bundled_existing) {
        Some(p) => Ok(p),
        None => Err(OrchestratorError::BinaryNotFound("audio-separator".to_owned())),
    }
}

} // verus!
