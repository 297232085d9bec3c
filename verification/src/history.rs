//! History indexing: one entry per regular file across the two fixed
//! output directories, with a generated identifier and display metadata,
//! sorted newest-first. The inventory is recomputed on each query and never
//! persisted; the caller lists the directories, the indexing itself is
//! verified.

use vstd::prelude::*;
use crate::artifacts::FileMeta;
use crate::paths::{join_path, spec_join_path};
use crate::strutil::{dec_rep, u64_to_dec};

verus! {

broadcast use vstd::seq_lib::group_to_multiset_ensures;

/// One display entry of the file history.
#[derive(Debug, Clone)]
pub struct HistoryEntry {
    /// Generated identifier: directory category and creation timestamp.
    pub id: String,
    /// Bare file name.
    pub name: String,
    /// Full path of the file.
    pub file_path: String,
    /// Directory category: `downloads` or `separated`.
    pub directory_type: String,
    /// Creation time in Unix seconds; the sort key.
    pub created_timestamp: u64,
    /// Human-readable creation time.
    pub created_display: String,
    /// Media duration; never computed by the indexer.
    pub duration: Option<String>,
    /// File size in bytes.
    pub file_size: u64,
}

/// The mathematical content of one history entry.
pub type HistoryView = (Seq<char>, Seq<char>, Seq<char>, Seq<char>, u64, Seq<char>, u64, bool);

/// The content of one entry: every field, with the never-computed duration
/// reduced to "is absent".
pub open spec fn hview(e: HistoryEntry) -> HistoryView {
    (
        e.id@,
        e.name@,
        e.file_path@,
        e.directory_type@,
        e.created_timestamp,
        e.created_display@,
        e.file_size,
        e.duration is None,
    )
}

/// The contents of an entry sequence.
pub open spec fn hviews(s: Seq<HistoryEntry>) -> Seq<HistoryView> {
    s.map_values(|e: HistoryEntry| hview(e))
}

/// What chrono renders for a Unix timestamp as UTC civil time in
/// `year-month-day hour:minute` form; a function of the timestamp alone.
pub uninterp spec fn timestamp_display(secs: u64) -> Seq<char>;

/// Relies on chrono's `DateTime::<Utc>::from_timestamp_secs` and its
/// strftime formatter with `%Y-%m-%d %H:%M`: renders a Unix timestamp as
/// UTC civil time, locale-independent, the empty string for timestamps
/// chrono cannot represent.
#[verifier::external_body]
pub fn format_timestamp(ts_secs: u64) -> (r: String)
    ensures
        r@ == timestamp_display(ts_secs),
{
    match chrono::DateTime::<chrono::Utc>::from_timestamp_secs(ts_secs as i64) {
        Some(dt) => dt.format("%Y-%m-%d %H:%M").to_string(),
        None => String::new(),
    }
}

/// The content of the entry generated for one file of one directory.
pub open spec fn spec_entry_view(dir: Seq<char>, dt: Seq<char>, m: FileMeta) -> HistoryView {
    (
        dt + seq!['_'] + dec_rep(m.created_secs as int),
        m.name@,
        spec_join_path(dir, m.name@),
        dt,
        m.created_secs,
        timestamp_display(m.created_secs),
        m.size,
        true,
    )
}

/// The contents generated for one directory's listing, in directory order,
/// regular files only.
pub open spec fn spec_entry_views(dir: Seq<char>, dt: Seq<char>, ms: Seq<FileMeta>) -> Seq<
    HistoryView,
>
    decreases ms.len(),
{
    if ms.len() == 0 {
        Seq::empty()
    } else {
        (if ms[0].is_file {
            seq![spec_entry_view(dir, dt, ms[0])]
        } else {
            Seq::empty()
        }) + spec_entry_views(dir, dt, ms.drop_first())
    }
}

/// Builds the entry for one regular file.
fn make_entry(dir: &str, dt: &str, m: &FileMeta) -> (r: HistoryEntry)
    requires
        m.is_file,
    ensures
        hview(r) == spec_entry_view(dir@, dt@, *m),
{
    let mut id = dt.to_owned();
    id.append("_");
    id.append(u64_to_dec(m.created_secs).as_str());
    proof {
        reveal_strlit("_");
        assert(id@ =~= dt@ + seq!['_'] + dec_rep(m.created_secs as int));
    }
    let r = HistoryEntry {
        id,
        name: m.name.clone(),
        file_path: join_path(dir, m.name.as_str()),
        directory_type: dt.to_owned(),
        created_timestamp: m.created_secs,
        created_display: format_timestamp(m.created_secs),
        duration: None,
        file_size: m.size,
    };
    r
}

/// Appends one directory's entries, in directory order.
#[verifier::loop_isolation(false)]
fn append_dir_entries(out: &mut Vec<HistoryEntry>, dir: &str, dt: &str, ms: &Vec<FileMeta>)
    ensures
        hviews(final(out)@) == hviews(old(out)@) + spec_entry_views(dir@, dt@, ms@),
{
    let len = ms.len();
    let mut i: usize = 0;
    proof {
        assert(ms@.subrange(0, len as int) =~= ms@);
        assert(hviews(out@) =~= hviews(out@) + spec_entry_views(
            dir@,
            dt@,
            ms@.subrange(len as int, len as int),
        ));
    }
    while i < len
        invariant
            i <= len,
            hviews(old(out)@) + spec_entry_views(dir@, dt@, ms@) == hviews(out@)
                + spec_entry_views(dir@, dt@, ms@.subrange(i as int, len as int)),
        decreases len - i,
    {
        proof {
            let rest = ms@.subrange(i as int, len as int);
            assert(rest[0] == ms@[i as int]);
            assert(rest.drop_first() =~= ms@.subrange(i + 1, len as int));
        }
        let m = &ms[i];
        if m.is_file {
            let e = make_entry(dir, dt, m);
            let ghost before = out@;
            out.push(e);
            proof {
                assert(hviews(out@) =~= hviews(before).push(hview(e)));
                assert(hviews(before).push(hview(e)) =~= hviews(before) + seq![spec_entry_view(
                    dir@,
                    dt@,
                    ms@[i as int],
                )]);
            }
        }
        i = i + 1;
    }
    proof {
        assert(ms@.subrange(len as int, len as int) =~= Seq::<FileMeta>::empty());
        assert(hviews(out@) + spec_entry_views(dir@, dt@, ms@.subrange(len as int, len as int))
            =~= hviews(out@));
    }
}

/// Newest first: timestamps never increase along the sequence.
pub open spec fn sorted_desc(s: Seq<HistoryEntry>) -> bool {
    forall|i: int, j: int|
        0 <= i < j < s.len() ==> s[i].created_timestamp >= s[j].created_timestamp
}

/// Sorts entries by creation timestamp, newest first, keeping exactly the
/// same contents.
#[verifier::loop_isolation(false)]
fn sort_entries_desc(v: Vec<HistoryEntry>) -> (r: Vec<HistoryEntry>)
    ensures
        sorted_desc(r@),
        hviews(r@).to_multiset() == hviews(v@).to_multiset(),
{
    let ghost orig = v@;
    let mut rest = v;
    let mut out: Vec<HistoryEntry> = Vec::new();
    proof {
        assert(hviews(out@) =~= Seq::<HistoryView>::empty());
        assert(hviews(out@).to_multiset().add(hviews(rest@).to_multiset()) =~= hviews(
            orig,
        ).to_multiset());
    }
    while rest.len() > 0
        invariant
            sorted_desc(out@),
            forall|a: int, b: int|
                0 <= a < out@.len() && 0 <= b < rest@.len() ==> out@[a].created_timestamp
                    >= rest@[b].created_timestamp,
            hviews(out@).to_multiset().add(hviews(rest@).to_multiset()) == hviews(
                orig,
            ).to_multiset(),
        decreases rest@.len(),
    {
        let rlen = rest.len();
        let mut m: usize = 0;
        let mut k: usize = 1;
        while k < rlen
            invariant
                m < k <= rlen,
                forall|j: int|
                    0 <= j < k ==> rest@[j].created_timestamp <= rest@[m as int].created_timestamp,
            decreases rlen - k,
        {
            if rest[k].created_timestamp > rest[m].created_timestamp {
                m = k;
            }
            k = k + 1;
        }
        let ghost ro = rest@;
        let ghost ov = out@;
        let e = rest.remove(m);
        out.push(e);
        proof {
            assert(hviews(ro.remove(m as int)) =~= hviews(ro).remove(m as int));
            assert(hviews(ro)[m as int] == hview(e));
            assert(hviews(ro).remove(m as int).to_multiset() =~= hviews(ro).to_multiset().remove(
                hview(e),
            ));
            assert(hviews(out@) =~= hviews(ov).push(hview(e)));
            assert(hviews(ov).push(hview(e)).to_multiset() =~= hviews(ov).to_multiset().insert(
                hview(e),
            ));
            assert(hviews(ro).to_multiset().count(hview(e)) >= 1) by {
                assert(hviews(ro).contains(hview(e))) by {
                    assert(hviews(ro)[m as int] == hview(e));
                }
            }
            assert(hviews(out@).to_multiset().add(hviews(rest@).to_multiset()) =~= hviews(
                orig,
            ).to_multiset());
        }
    }
    out
}

/// Builds the full history inventory: one entry per regular file of the
/// downloaded and the separated output directory, each entry carrying its
/// generated identifier, path, category, timestamps and size, the whole
/// inventory sorted newest-first.
pub fn build_history(
    downloads_dir: &str,
    downloads: &Vec<FileMeta>,
    separated_dir: &str,
    separated: &Vec<FileMeta>,
) -> (r: Vec<HistoryEntry>)
    ensures
        sorted_desc(r@),
        hviews(r@).to_multiset() == (spec_entry_views(downloads_dir@, "downloads"@, downloads@)
            + spec_entry_views(separated_dir@, "separated"@, separated@)).to_multiset(),
{
    let mut items: Vec<HistoryEntry> = Vec::new();
    append_dir_entries(&mut items, downloads_dir, "downloads", downloads);
    append_dir_entries(&mut items, separated_dir, "separated", separated);
    proof {
        assert(hviews(items@) =~= spec_entry_views(downloads_dir@, "downloads"@, downloads@)
            + spec_entry_views(separated_dir@, "separated"@, separated@));
    }
    sort_entries_desc(items)
}

/// Over entries with pairwise distinct creation timestamps, newest-first
/// order is strict: the inventory is in strictly descending timestamp
/// order.
pub proof fn lemma_distinct_timestamps_sort_strictly(s: Seq<HistoryEntry>)
    requires
        sorted_desc(s),
        forall|i: int, j: int|
            0 <= i < j < s.len() ==> s[i].created_timestamp != s[j].created_timestamp,
    ensures
        forall|i: int, j: int|
            0 <= i < j < s.len() ==> s[i].created_timestamp > s[j].created_timestamp,
{
}

} // verus!
