//! Path arithmetic on plain strings, and the default locations derived from
//! the user's home directory. Paths are modelled as character strings joined
//! with `/`; the thin outer layer converts to the platform's path type.

use vstd::prelude::*;
use crate::strutil::{has_char, rfind_char};

verus! {

/// `base` joined with one further component: `base/comp`, or `comp` alone
/// when `base` is empty.
pub open spec fn spec_join_path(base: Seq<char>, comp: Seq<char>) -> Seq<char> {
    if base.len() == 0 {
        comp
    } else if base.last() == '/' || base.last() == '\\' {
        base + comp
    } else {
        base + seq!['/'] + comp
    }
}

/// Joins a directory with one further component.
pub fn join_path(base: &str, comp: &str) -> (r: String)
    ensures
        r@ == spec_join_path(base@, comp@),
{
    let blen = base.unicode_len();
    if blen == 0 {
        return comp.to_owned();
    }
    let last = base.get_char(blen - 1);
    let mut r = base.to_owned();
    if last != '/' && last != '\\' {
        r.append("/");
        proof {
            reveal_strlit("/");
            assert(r@ =~= base@ + seq!['/']);
        }
    }
    r.append(comp);
    proof {
        assert(r@ =~= spec_join_path(base@, comp@));
    }
    r
}

/// The directory part of a path: everything before the last separator, or
/// empty when the path has no separator (a bare file name).
pub open spec fn spec_dirname(p: Seq<char>) -> Seq<char> {
    if exists|i: int| 0 <= i < p.len() && (p[i] == '/' || p[i] == '\\') {
        let i = last_sep_index(p);
        p.subrange(0, i)
    } else {
        Seq::empty()
    }
}

/// Index of the last path separator.
pub open spec fn last_sep_index(p: Seq<char>) -> int {
    choose|i: int|
        0 <= i < p.len() && (p[i] == '/' || p[i] == '\\') && (forall|j: int|
            i < j < p.len() ==> !(p[j] == '/' || p[j] == '\\'))
}

/// Extracts the directory part of a path.
pub fn dirname(p: &str) -> (r: &str)
    ensures
        r@ == spec_dirname(p@),
{
    let slash = rfind_char(p, '/');
    let back = rfind_char(p, '\\');
    let sep: Option<usize> = match (slash, back) {
        (Some(a), Some(b)) => if a > b {
            Some(a)
        } else {
            Some(b)
        },
        (Some(a), None) => Some(a),
        (None, Some(b)) => Some(b),
        (None, None) => None,
    };
    match sep {
        Some(i) => {
            proof {
                assert(0 <= i < p@.len() && (p@[i as int] == '/' || p@[i as int] == '\\')
                    && (forall|j: int|
                    i < j < p@.len() ==> !(p@[j] == '/' || p@[j] == '\\')));
                assert(last_sep_index(p@) == i as int) by {
                    let k = last_sep_index(p@);
                    assert(0 <= k < p@.len() && (p@[k] == '/' || p@[k] == '\\') && (forall|j: int|
                        k < j < p@.len() ==> !(p@[j] == '/' || p@[j] == '\\')));
                    if k < i {
                        assert(!(p@[i as int] == '/' || p@[i as int] == '\\'));
                    }
                    if k > i {
                        assert(!(p@[k] == '/' || p@[k] == '\\'));
                    }
                }
            }
            p.substring_char(0, i)
        },
        None => {
            proof {
                assert(!has_char(p@, '/'));
                assert(!has_char(p@, '\\'));
                assert(forall|i: int|
                    0 <= i < p@.len() ==> !(#[trigger] p@[i] == '/' || p@[i] == '\\'));
            }
            let r = p.substring_char(0, 0);
            proof {
                assert(r@ =~= Seq::<char>::empty());
            }
            r
        },
    }
}

/// The file-name part of a path: everything after the last separator.
pub open spec fn spec_basename(p: Seq<char>) -> Seq<char> {
    if exists|i: int| 0 <= i < p.len() && (p[i] == '/' || p[i] == '\\') {
        let i = last_sep_index(p);
        p.subrange(i + 1, p.len() as int)
    } else {
        p
    }
}

/// Extracts the file-name part of a path.
pub fn basename(p: &str) -> (r: &str)
    ensures
        r@ == spec_basename(p@),
{
    let len = p.unicode_len();
    let slash = rfind_char(p, '/');
    let back = rfind_char(p, '\\');
    let sep: Option<usize> = match (slash, back) {
        (Some(a), Some(b)) => if a > b {
            Some(a)
        } else {
            Some(b)
        },
        (Some(a), None) => Some(a),
        (None, Some(b)) => Some(b),
        (None, None) => None,
    };
    match sep {
        Some(i) => {
            proof {
                assert(last_sep_index(p@) == i as int) by {
                    assert(0 <= i < p@.len() && (p@[i as int] == '/' || p@[i as int] == '\\')
                        && (forall|j: int|
                        i < j < p@.len() ==> !(p@[j] == '/' || p@[j] == '\\')));
                    let k = last_sep_index(p@);
                    assert(0 <= k < p@.len() && (p@[k] == '/' || p@[k] == '\\') && (forall|j: int|
                        k < j < p@.len() ==> !(p@[j] == '/' || p@[j] == '\\')));
                    if k < i {
                        assert(!(p@[i as int] == '/' || p@[i as int] == '\\'));
                    }
                    if k > i {
                        assert(!(p@[k] == '/' || p@[k] == '\\'));
                    }
                }
            }
            p.substring_char(i + 1, len)
        },
        None => {
            proof {
                assert(forall|i: int|
                    0 <= i < p@.len() ==> !(#[trigger] p@[i] == '/' || p@[i] == '\\'));
                assert(p@.subrange(0, len as int) =~= p@);
            }
            p.substring_char(0, len)
        },
    }
}

/// Relies on dirs::home_dir: the user's home directory as text, when the
/// platform reports one. The result depends on the environment, so nothing
/// further is assumed of it.
#[verifier::external_body]
fn home_dir_text() -> Option<String> {
    dirs::home_dir().map(|p| p.to_string_lossy().to_string())
}

/// The user's documents directory: `Documents` under the home directory.
/// Fails, with the documented message, exactly when the platform reports no
/// home directory.
pub fn get_documents_dir() -> (r: Result<String, String>)
    ensures
        r is Ok ==> exists|h: Seq<char>| r->Ok_0@ == spec_join_path(h, "Documents"@),
        r is Err ==> r->Err_0@ == "Failed to get home directory"@,
{
    match home_dir_text() {
        Some(h) => {
            let d = join_path(h.as_str(), "Documents");
            assert(d@ == spec_join_path(h@, "Documents"@));
            Ok(d)
        },
        None => Err("Failed to get home directory".to_owned()),
    }
}

/// The default download location: `Resample2` under the documents
/// directory.
pub fn get_default_download_path() -> (r: Result<String, String>)
    ensures
        r is Ok ==> exists|d: Seq<char>|
            r->Ok_0@ == spec_join_path(spec_join_path(d, "Documents"@), "Resample2"@),
        r is Err ==> r->Err_0@ == "Failed to get home directory"@,
{
    match get_documents_dir() {
        Ok(docs) => {
            let p = join_path(docs.as_str(), "Resample2");
            proof {
                let h = choose|h: Seq<char>| docs@ == spec_join_path(h, "Documents"@);
                assert(p@ == spec_join_path(spec_join_path(h, "Documents"@), "Resample2"@));
            }
            Ok(p)
        },
        Err(e) => Err(e),
    }
}

/// The default separation-model location: `Models` under the default
/// download location.
pub fn get_default_model_directory() -> (r: Result<String, String>)
    ensures
        r is Ok ==> exists|d: Seq<char>|
            r->Ok_0@ == spec_join_path(
                spec_join_path(spec_join_path(d, "Documents"@), "Resample2"@),
                "Models"@,
            ),
        r is Err ==> r->Err_0@ == "Failed to get home directory"@,
{
    match get_default_download_path() {
        Ok(base) => {
            let p = join_path(base.as_str(), "Models");
            proof {
                let h = choose|h: Seq<char>|
                    base@ == spec_join_path(spec_join_path(h, "Documents"@), "Resample2"@);
                assert(p@ == spec_join_path(
                    spec_join_path(spec_join_path(h, "Documents"@), "Resample2"@),
                    "Models"@,
                ));
            }
            Ok(p)
        },
        Err(e) => Err(e),
    }
}

} // verus!
