//! Input classification: maps a raw user string to one of a fixed set of
//! input kinds, from the string's lexical shape plus one filesystem existence
//! probe whose outcome the caller passes in. Classification is total.

use vstd::prelude::*;
use crate::errors::OrchestratorError;
use crate::strutil::{
    contains_char, contains_seq, has_char, is_prefix_of, is_space_char, lemma_contains_survives_trim,
    lower, lower_char, str_contains_ci, str_starts_with_ci, trim, trim_spec,
};

verus! {

/// The kind of a raw user input.
#[derive(Debug, Clone, PartialEq, Eq, Structural)]
pub enum InputType {
    /// A streaming-platform reference the download tool can fetch directly.
    YouTube,
    /// A track-platform reference that must first be resolved to a playable
    /// streaming reference.
    Spotify,
    /// A path into the local filesystem.
    LocalFile,
    /// Anything else; terminal for the calling operation.
    Unknown,
}

/// Classification of a raw input string, given whether the trimmed input
/// exists as a file on disk. Rules apply in priority order: streaming-platform
/// domains, then track-platform domains, then other URLs (unknown), then
/// local-path shapes, then unknown.
pub open spec fn spec_classify(raw: Seq<char>, exists_on_disk: bool) -> InputType {
    let t = trim_spec(raw);
    let l = lower(t);
    if contains_seq(l, "youtube.com"@) || contains_seq(l, "youtu.be"@) || contains_seq(
        l,
        "music.youtube.com"@,
    ) {
        InputType::YouTube
    } else if contains_seq(l, "spotify.com"@) || contains_seq(l, "open.spotify.com"@) {
        InputType::Spotify
    } else if is_prefix_of("http://"@, l) || is_prefix_of("https://"@, l) {
        InputType::Unknown
    } else if has_char(t, '/') || has_char(t, '\\') || (t.len() > 2 && t[1] == ':') || (t.len() > 0
        && t[0] == '.') || exists_on_disk {
        InputType::LocalFile
    } else {
        InputType::Unknown
    }
}

/// Classifies a raw input. `exists_on_disk` is the result of probing whether
/// the trimmed input names an existing file; it is consulted only after
/// every lexical rule has failed to match.
pub fn detect_input_type(input: &str, exists_on_disk: bool) -> (r: InputType)
    ensures
        r == spec_classify(input@, exists_on_disk),
{
    let t = trim(input);
    if str_contains_ci(t, "youtube.com") || str_contains_ci(t, "youtu.be") || str_contains_ci(
        t,
        "music.youtube.com",
    ) {
        return InputType::YouTube;
    }
    if str_contains_ci(t, "spotify.com") || str_contains_ci(t, "open.spotify.com") {
        return InputType::Spotify;
    }
    if str_starts_with_ci(t, "http://") || str_starts_with_ci(t, "https://") {
        return InputType::Unknown;
    }
    let tlen = t.unicode_len();
    if contains_char(t, '/') || contains_char(t, '\\') || (tlen > 2 && t.get_char(1) == ':') || (
    tlen > 0 && t.get_char(0) == '.') || exists_on_disk {
        return InputType::LocalFile;
    }
    InputType::Unknown
}

/// Rejects an input that is empty after trimming, before any operation
/// would act on it.
pub fn validate_nonempty_input(input: &str) -> (r: Result<(), OrchestratorError>)
    ensures
        r is Ok <==> trim_spec(input@).len() > 0,
        r is Err ==> r->Err_0 is InvalidInput && r->Err_0->InvalidInput_0@
            == "URL cannot be empty"@,
{
    let t = trim(input);
    if t.unicode_len() == 0 {
        Err(OrchestratorError::InvalidInput("URL cannot be empty".to_owned()))
    } else {
        Ok(())
    }
}

/// Admits only the input kinds a download operation can act on: the two
/// remote kinds. A local file needs no download, and an unknown input is a
/// terminal condition, never retried.
pub fn ensure_downloadable(kind: &InputType) -> (r: Result<(), OrchestratorError>)
    ensures
        r is Ok <==> (kind is YouTube || kind is Spotify),
        r is Err ==> r->Err_0 is ClassificationUnknown,
{
    match kind {
        InputType::YouTube => Ok(()),
        InputType::Spotify => Ok(()),
        _ => Err(OrchestratorError::ClassificationUnknown),
    }
}

/// Any input that contains a recognized streaming-platform domain
/// substring, in whatever letter case, is classified as a streaming
/// source, whatever the existence probe says.
pub proof fn lemma_streaming_domain_classifies(raw: Seq<char>, exists_on_disk: bool)
    requires
        contains_seq(lower(raw), "youtube.com"@) || contains_seq(lower(raw), "youtu.be"@)
            || contains_seq(lower(raw), "music.youtube.com"@),
    ensures
        spec_classify(raw, exists_on_disk) == InputType::YouTube,
{
    reveal_strlit("youtube.com");
    reveal_strlit("youtu.be");
    reveal_strlit("music.youtube.com");
    if contains_seq(lower(raw), "youtube.com"@) {
        assert(forall|q: int|
            0 <= q < "youtube.com"@.len() ==> !is_space_char(#[trigger] "youtube.com"@[q]));
        lemma_contains_survives_trim(raw, "youtube.com"@);
    } else if contains_seq(lower(raw), "youtu.be"@) {
        assert(forall|q: int|
            0 <= q < "youtu.be"@.len() ==> !is_space_char(#[trigger] "youtu.be"@[q]));
        lemma_contains_survives_trim(raw, "youtu.be"@);
    } else {
        assert(forall|q: int|
            0 <= q < "music.youtube.com"@.len() ==> !is_space_char(
                #[trigger] "music.youtube.com"@[q],
            ));
        lemma_contains_survives_trim(raw, "music.youtube.com"@);
    }
}

/// Classification depends only on the case-folded trimmed input and the
/// existence probe: two inputs that agree after trimming and ASCII case
/// folding classify alike.
pub proof fn lemma_classify_case_insensitive(a: Seq<char>, b: Seq<char>, exists_on_disk: bool)
    requires
        lower(trim_spec(a)) == lower(trim_spec(b)),
    ensures
        spec_classify(a, exists_on_disk) == spec_classify(b, exists_on_disk),
{
    let ta = trim_spec(a);
    let tb = trim_spec(b);
    assert(lower(ta).len() == ta.len());
    assert(lower(tb).len() == tb.len());
    assert(ta.len() == tb.len());
    assert forall|c: char| (c == '/' || c == '\\' || c == ':' || c == '.') implies (has_char(
        ta,
        c,
    ) == has_char(tb, c)) by {
        assert forall|i: int| 0 <= i < ta.len() && ta[i] == c implies tb[i] == c by {
            assert(lower(ta)[i] == lower_char(ta[i]));
            assert(lower(tb)[i] == lower_char(tb[i]));
        }
        assert forall|i: int| 0 <= i < tb.len() && tb[i] == c implies ta[i] == c by {
            assert(lower(ta)[i] == lower_char(ta[i]));
            assert(lower(tb)[i] == lower_char(tb[i]));
        }
    }
    if ta.len() > 2 {
        assert(lower(ta)[1] == lower_char(ta[1]));
        assert(lower(tb)[1] == lower_char(tb[1]));
        assert((ta[1] == ':') == (tb[1] == ':'));
    }
    if ta.len() > 0 {
        assert(lower(ta)[0] == lower_char(ta[0]));
        assert(lower(tb)[0] == lower_char(tb[0]));
        assert((ta[0] == '.') == (tb[0] == '.'));
    }
}

/// An existing file path that matches no URL rule is classified as a local
/// file, whether or not it carries a recognizable extension.
pub proof fn lemma_existing_path_is_local(raw: Seq<char>, exists_on_disk: bool)
    requires
        exists_on_disk,
        !contains_seq(lower(trim_spec(raw)), "youtube.com"@),
        !contains_seq(lower(trim_spec(raw)), "youtu.be"@),
        !contains_seq(lower(trim_spec(raw)), "music.youtube.com"@),
        !contains_seq(lower(trim_spec(raw)), "spotify.com"@),
        !contains_seq(lower(trim_spec(raw)), "open.spotify.com"@),
        !is_prefix_of("http://"@, lower(trim_spec(raw))),
        !is_prefix_of("https://"@, lower(trim_spec(raw))),
    ensures
        spec_classify(raw, exists_on_disk) == InputType::LocalFile,
{
}

} // verus!
