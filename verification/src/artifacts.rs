//! Artifact discovery: after an external tool exits successfully, the
//! newly produced file is found among a directory's immediate entries by an
//! extension allow-list and a recency window, newest creation time winning.
//! The caller lists the directory; the choice itself is verified.

use vstd::prelude::*;
use crate::errors::OrchestratorError;
use crate::strutil::{has_char, lower, rfind_char, str_eq_ci};

verus! {

/// One immediate directory entry, as the thin outer layer reports it:
/// bare file name, creation time in Unix seconds, size in bytes, and
/// whether the entry is a regular file.
#[derive(Debug, Clone)]
pub struct FileMeta {
    pub name: String,
    pub created_secs: u64,
    pub size: u64,
    pub is_file: bool,
}

/// The media class an operation expects its output in.
#[derive(Debug, Clone, Copy, PartialEq, Eq, Structural)]
pub enum MediaClass {
    Audio,
    Video,
}

/// Index of the last `.` in a name.
pub open spec fn last_dot_index(name: Seq<char>) -> int {
    choose|i: int|
        0 <= i < name.len() && name[i] == '.' && (forall|j: int|
            i < j < name.len() ==> name[j] != '.')
}

/// The extension of a file name: what follows the last `.`, provided that
/// dot is not the name's first character (a leading dot marks a hidden
/// file, not an extension).
pub open spec fn spec_ext_of(name: Seq<char>) -> Option<Seq<char>> {
    if has_char(name, '.') {
        let i = last_dot_index(name);
        if i > 0 {
            Some(name.subrange(i + 1, name.len() as int))
        } else {
            None
        }
    } else {
        None
    }
}

/// Extracts the extension of a file name.
pub fn ext_of(name: &str) -> (r: Option<&str>)
    ensures
        match r {
            Some(e) => spec_ext_of(name@) == Some(e@),
            None => spec_ext_of(name@) is None,
        },
{
    let len = name.unicode_len();
    match rfind_char(name, '.') {
        Some(i) => {
            proof {
                assert(last_dot_index(name@) == i as int) by {
                    assert(0 <= i < name@.len() && name@[i as int] == '.' && (forall|j: int|
                        i < j < name@.len() ==> name@[j] != '.'));
                    let k = last_dot_index(name@);
                    assert(0 <= k < name@.len() && name@[k] == '.' && (forall|j: int|
                        k < j < name@.len() ==> name@[j] != '.'));
                    if k < i {
                        assert(name@[k] != '.');
                    }
                    if k > i {
                        assert(name@[i as int] != '.');
                    }
                }
            }
            if i > 0 {
                Some(name.substring_char(i + 1, len))
            } else {
                None
            }
        },
        None => None,
    }
}

/// Case-folded membership in the audio extension allow-list.
pub open spec fn is_audio_ext(e: Seq<char>) -> bool {
    ||| lower(e) == "mp3"@
    ||| lower(e) == "m4a"@
    ||| lower(e) == "opus"@
    ||| lower(e) == "wav"@
    ||| lower(e) == "flac"@
    ||| lower(e) == "aac"@
    ||| lower(e) == "ogg"@
}

/// Case-folded membership in the video extension allow-list.
pub open spec fn is_video_ext(e: Seq<char>) -> bool {
    ||| lower(e) == "mp4"@
    ||| lower(e) == "avi"@
    ||| lower(e) == "mkv"@
    ||| lower(e) == "mov"@
    ||| lower(e) == "wmv"@
    ||| lower(e) == "flv"@
}

/// Membership in the allow-list of the expected media class.
pub open spec fn spec_class_ext(class: MediaClass, e: Seq<char>) -> bool {
    match class {
        MediaClass::Audio => is_audio_ext(e),
        MediaClass::Video => is_video_ext(e),
    }
}

/// Tests an extension against the expected media class's allow-list.
pub fn class_ext_matches(class: MediaClass, e: &str) -> (r: bool)
    ensures
        r == spec_class_ext(class, e@),
{
    match class {
        MediaClass::Audio => str_eq_ci(e, "mp3") || str_eq_ci(e, "m4a") || str_eq_ci(e, "opus")
            || str_eq_ci(e, "wav") || str_eq_ci(e, "flac") || str_eq_ci(e, "aac") || str_eq_ci(
            e,
            "ogg",
        ),
        MediaClass::Video => str_eq_ci(e, "mp4") || str_eq_ci(e, "avi") || str_eq_ci(e, "mkv")
            || str_eq_ci(e, "mov") || str_eq_ci(e, "wmv") || str_eq_ci(e, "flv"),
    }
}

/// An entry survives both filters: a regular file, an allow-listed
/// extension, and a creation time inside the recency window of now.
pub open spec fn spec_qualifies(m: FileMeta, now: u64, window: u64, class: MediaClass) -> bool {
    &&& m.is_file
    &&& (match spec_ext_of(m.name@) {
        Some(e) => spec_class_ext(class, e),
        None => false,
    })
    &&& m.created_secs <= now
    &&& now - m.created_secs < window
}

/// Tests one entry against both filters.
pub fn qualifies(m: &FileMeta, now: u64, window: u64, class: MediaClass) -> (r: bool)
    ensures
        r == spec_qualifies(*m, now, window, class),
{
    if !m.is_file {
        return false;
    }
    match ext_of(m.name.as_str()) {
        Some(e) => {
            if !class_ext_matches(class, e) {
                return false;
            }
        },
        None => {
            return false;
        },
    }
    m.created_secs <= now && now - m.created_secs < window
}

/// Selects the produced artifact among a directory's entries: of the
/// entries surviving the extension and recency filters, the one with the
/// latest creation time; among equally new survivors, the first wins,
/// which makes ties deterministic. Reports the distinct
/// completed-but-output-missing failure when nothing survives, since the
/// external tool itself reported success.
#[verifier::loop_isolation(false)]
pub fn locate_artifact(
    entries: &Vec<FileMeta>,
    now_secs: u64,
    window_secs: u64,
    class: MediaClass,
) -> (r: Result<usize, OrchestratorError>)
    ensures
        match r {
            Ok(i) => {
                &&& i < entries@.len()
                &&& spec_qualifies(entries@[i as int], now_secs, window_secs, class)
                &&& (forall|j: int|
                    0 <= j < entries@.len() && spec_qualifies(
                        #[trigger] entries@[j],
                        now_secs,
                        window_secs,
                        class,
                    ) ==> entries@[j].created_secs <= entries@[i as int].created_secs)
                &&& (forall|j: int|
                    0 <= j < i && spec_qualifies(#[trigger] entries@[j], now_secs, window_secs, class)
                        ==> entries@[j].created_secs < entries@[i as int].created_secs)
            },
            Err(e) => {
                &&& e is ArtifactNotFound
                &&& (forall|j: int|
                    0 <= j < entries@.len() ==> !spec_qualifies(
                        #[trigger] entries@[j],
                        now_secs,
                        window_secs,
                        class,
                    ))
            },
        },
{
    let len = entries.len();
    let mut best: Option<usize> = None;
    let mut i: usize = 0;
    while i < len
        invariant
            i <= len,
            match best {
                Some(b) => {
                    &&& b < i
                    &&& spec_qualifies(entries@[b as int], now_secs, window_secs, class)
                    &&& (forall|j: int|
                        0 <= j < i && spec_qualifies(
                            #[trigger] entries@[j],
                            now_secs,
                            window_secs,
                            class,
                        ) ==> entries@[j].created_secs <= entries@[b as int].created_secs)
                    &&& (forall|j: int|
                        0 <= j < b && spec_qualifies(
                            #[trigger] entries@[j],
                            now_secs,
                            window_secs,
                            class,
                        ) ==> entries@[j].created_secs < entries@[b as int].created_secs)
                },
                None => forall|j: int|
                    0 <= j < i ==> !spec_qualifies(
                        #[trigger] entries@[j],
                        now_secs,
                        window_secs,
                        class,
                    ),
            },
        decreases len - i,
    {
        if qualifies(&entries[i], now_secs, window_secs, class) {
            match best {
                Some(b) => {
                    if entries[i].created_secs > entries[b].created_secs {
                        best = Some(i);
                    }
                },
                None => {
                    best = Some(i);
                },
            }
        }
        i = i + 1;
    }
    match best {
        Some(b) => Ok(b),
        None => Err(OrchestratorError::ArtifactNotFound),
    }
}

/// Picks the most recently modified regular file among a directory's
/// entries, with no extension or recency filter; `created_secs` carries the
/// modification time for this use. The first among equally new files wins.
pub fn pick_newest_file(entries: &Vec<FileMeta>) -> (r: Option<usize>)
    ensures
        match r {
            Some(i) => {
                &&& i < entries@.len()
                &&& entries@[i as int].is_file
                &&& (forall|j: int|
                    0 <= j < entries@.len() && (#[trigger] entries@[j]).is_file
                        ==> entries@[j].created_secs <= entries@[i as int].created_secs)
                &&& (forall|j: int|
                    0 <= j < i && (#[trigger] entries@[j]).is_file ==> entries@[j].created_secs
                        < entries@[i as int].created_secs)
            },
            None => forall|j: int| 0 <= j < entries@.len() ==> !(#[trigger] entries@[j]).is_file,
        },
{
    let len = entries.len();
    let mut best: Option<usize> = None;
    let mut i: usize = 0;
    while i < len
        invariant
            i <= len,
            len == entries@.len(),
            match best {
                Some(b) => {
                    &&& b < i
                    &&& entries@[b as int].is_file
                    &&& (forall|j: int|
                        0 <= j < i && (#[trigger] entries@[j]).is_file ==> entries@[j].created_secs
                            <= entries@[b as int].created_secs)
                    &&& (forall|j: int|
                        0 <= j < b && (#[trigger] entries@[j]).is_file ==> entries@[j].created_secs
                            < entries@[b as int].created_secs)
                },
                None => forall|j: int| 0 <= j < i ==> !(#[trigger] entries@[j]).is_file,
            },
        decreases len - i,
    {
        if entries[i].is_file {
            match best {
                Some(b) => {
                    if entries[i].created_secs > entries[b].created_secs {
                        best = Some(i);
                    }
                },
                None => {
                    best = Some(i);
                },
            }
        }
        i = i + 1;
    }
    best
}

/// Lists the separated-stem output files among a directory's entries: the
/// regular files whose extension belongs to the separation output set, in
/// directory order, as indices into the entry list.
pub open spec fn is_stem_ext(e: Seq<char>) -> bool {
    e == "wav"@ || e == "mp3"@ || e == "flac"@
}

/// An entry is a separation output file.
pub open spec fn spec_is_stem_output(m: FileMeta) -> bool {
    m.is_file && (match spec_ext_of(m.name@) {
        Some(e) => is_stem_ext(e),
        None => false,
    })
}

/// Collects the separation output files, keeping directory order.
#[verifier::loop_isolation(false)]
pub fn list_stem_outputs(entries: &Vec<FileMeta>) -> (r: Vec<usize>)
    ensures
        forall|k: int|
            0 <= k < r@.len() ==> r@[k] < entries@.len() && spec_is_stem_output(
                entries@[#[trigger] r@[k] as int],
            ),
        forall|j: int|
            0 <= j < entries@.len() && spec_is_stem_output(#[trigger] entries@[j]) ==> r@.contains(
                j as usize,
            ),
        forall|k1: int, k2: int| 0 <= k1 < k2 < r@.len() ==> r@[k1] < r@[k2],
{
    let len = entries.len();
    let mut r: Vec<usize> = Vec::new();
    let mut i: usize = 0;
    while i < len
        invariant
            i <= len,
            forall|k: int|
                0 <= k < r@.len() ==> r@[k] < i && spec_is_stem_output(
                    entries@[#[trigger] r@[k] as int],
                ),
            forall|j: int|
                0 <= j < i && spec_is_stem_output(#[trigger] entries@[j]) ==> r@.contains(
                    j as usize,
                ),
            forall|k1: int, k2: int| 0 <= k1 < k2 < r@.len() ==> r@[k1] < r@[k2],
        decreases len - i,
    {
        let m = &entries[i];
        let is_out = if m.is_file {
            match ext_of(m.name.as_str()) {
                Some(e) => crate::strutil::str_eq(e, "wav") || crate::strutil::str_eq(e, "mp3")
                    || crate::strutil::str_eq(e, "flac"),
                None => false,
            }
        } else {
            false
        };
        let ghost r_old = r@;
        if is_out {
            r.push(i);
            proof {
                assert forall|j: int|
                    0 <= j < i + 1 && spec_is_stem_output(#[trigger] entries@[j]) implies r@
                    .contains(j as usize) by {
                    if j == i {
                        assert(r@[r_old.len() as int] == i as usize);
                    } else {
                        let k = choose|k: int| 0 <= k < r_old.len() && r_old[k] == j as usize;
                        assert(r@[k] == j as usize);
                    }
                }
            }
        } else {
            proof {
                assert(!spec_is_stem_output(entries@[i as int]));
            }
        }
        i = i + 1;
    }
    r
}

} // verus!
