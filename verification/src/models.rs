//! Separation-model inventory: the verified reading of the engine's model
//! catalogue (architecture categories, each holding named models with a
//! filename and output stems) and the listing of model files already on
//! disk, with their display names.

use vstd::prelude::*;
use crate::artifacts::FileMeta;
use crate::errors::OrchestratorError;
use crate::json::{json_doc_of, json_text_wellformed, spec_get, JsonValue};
use crate::strutil::{
    is_suffix_of, remove_all, remove_all_spec, replace_seps_with_spaces, spaced, str_ends_with,
};

verus! {

/// One model of the engine's catalogue.
#[derive(Debug, Clone)]
pub struct ModelInfo {
    pub filename: String,
    pub arch: String,
    pub output_stems: String,
    pub friendly_name: String,
}

/// One model file already on disk.
#[derive(Debug, Clone)]
pub struct DownloadedModel {
    pub filename: String,
    pub friendly_name: String,
}

/// The mathematical content of one catalogue model.
pub type ModelView = (Seq<char>, Seq<char>, Seq<char>, Seq<char>);

/// The content of one catalogue model: filename, architecture, stems text,
/// display name.
pub open spec fn mview(m: ModelInfo) -> ModelView {
    (m.filename@, m.arch@, m.output_stems@, m.friendly_name@)
}

/// The contents of a catalogue listing.
pub open spec fn mviews(s: Seq<ModelInfo>) -> Seq<ModelView> {
    s.map_values(|m: ModelInfo| mview(m))
}

/// The string items of an array, other items skipped.
pub open spec fn filtered_strs(items: Seq<JsonValue>) -> Seq<Seq<char>>
    decreases items.len(),
{
    if items.len() == 0 {
        Seq::empty()
    } else {
        (match items[0] {
            JsonValue::Str(s) => seq![s@],
            _ => Seq::empty(),
        }) + filtered_strs(items.drop_first())
    }
}

/// The pieces joined with a comma separator.
pub open spec fn joined(fs: Seq<Seq<char>>) -> Seq<char>
    decreases fs.len(),
{
    if fs.len() == 0 {
        Seq::empty()
    } else if fs.len() == 1 {
        fs[0]
    } else {
        fs[0] + ", "@ + joined(fs.drop_first())
    }
}

/// The stems text of one catalogue model: its string stems joined with a
/// comma, or the unknown marker when the model carries no stem array.
pub open spec fn spec_stems_text(model_obj: JsonValue) -> Seq<char> {
    match spec_get(model_obj, "stems"@) {
        Some(v) => match v {
            JsonValue::Arr(items) => joined(filtered_strs(items@)),
            _ => "Unknown"@,
        },
        None => "Unknown"@,
    }
}

/// Collects the string items of an array.
#[verifier::loop_isolation(false)]
fn collect_strs(items: &Vec<JsonValue>) -> (r: Vec<String>)
    ensures
        crate::commands::views_of(r@) == filtered_strs(items@),
{
    let len = items.len();
    let mut r: Vec<String> = Vec::new();
    let mut i: usize = 0;
    proof {
        assert(items@.subrange(0, len as int) =~= items@);
        assert(crate::commands::views_of(r@) + filtered_strs(items@) =~= filtered_strs(items@));
    }
    while i < len
        invariant
            i <= len,
            filtered_strs(items@) == crate::commands::views_of(r@) + filtered_strs(
                items@.subrange(i as int, len as int),
            ),
        decreases len - i,
    {
        proof {
            let rest = items@.subrange(i as int, len as int);
            assert(rest[0] == items@[i as int]);
            assert(rest.drop_first() =~= items@.subrange(i + 1, len as int));
        }
        match items[i].as_str() {
            Some(s) => {
                let ghost before = r@;
                r.push(s.clone());
                proof {
                    assert(crate::commands::views_of(r@) =~= crate::commands::views_of(
                        before,
                    ).push(s@));
                    assert(crate::commands::views_of(before).push(s@) =~= crate::commands::views_of(
                        before,
                    ) + seq![items@[i as int]->Str_0@]);
                }
            },
            None => {},
        }
        i = i + 1;
    }
    proof {
        assert(filtered_strs(items@.subrange(len as int, len as int)) =~= Seq::<Seq<char>>::empty());
        assert(crate::commands::views_of(r@) + Seq::<Seq<char>>::empty() =~= crate::commands::views_of(r@));
    }
    r
}

/// Joins pieces with a comma separator, building from the tail.
#[verifier::loop_isolation(false)]
fn join_with_comma(fs: &Vec<String>) -> (r: String)
    ensures
        r@ == joined(crate::commands::views_of(fs@)),
{
    let n = fs.len();
    if n == 0 {
        return String::new();
    }
    let mut out = fs[n - 1].clone();
    let mut k: usize = n - 1;
    proof {
        let vs = crate::commands::views_of(fs@);
        assert(vs.subrange(k as int, n as int).len() == 1);
        assert(vs.subrange(k as int, n as int)[0] == vs[k as int]);
        assert(out@ == joined(vs.subrange(k as int, n as int)));
    }
    while k > 0
        invariant
            k < n,
            n == fs@.len(),
            out@ == joined(crate::commands::views_of(fs@).subrange(k as int, n as int)),
        decreases k,
    {
        k = k - 1;
        let mut t = fs[k].clone();
        t.append(", ");
        t.append(out.as_str());
        out = t;
        proof {
            let vs = crate::commands::views_of(fs@);
            let sub = vs.subrange(k as int, n as int);
            assert(sub[0] == vs[k as int]);
            assert(sub.drop_first() =~= vs.subrange(k + 1, n as int));
            assert(sub.len() >= 2);
            assert(out@ == joined(sub));
        }
    }
    proof {
        assert(crate::commands::views_of(fs@).subrange(0, n as int) =~= crate::commands::views_of(
            fs@,
        ));
    }
    out
}

/// Reads the stems text of one catalogue model.
fn stems_text(model_obj: &JsonValue) -> (r: String)
    ensures
        r@ == spec_stems_text(*model_obj),
{
    match model_obj.get("stems") {
        Some(v) => match v.as_arr() {
            Some(items) => {
                let fs = collect_strs(items);
                join_with_comma(&fs)
            },
            None => "Unknown".to_owned(),
        },
        None => "Unknown".to_owned(),
    }
}

/// The catalogue models of one architecture category: one model per field
/// whose value carries a string `filename`, keyed by the model's display
/// name.
pub open spec fn spec_category_models(arch: Seq<char>, fields: Seq<(String, JsonValue)>) -> Seq<
    ModelView,
>
    decreases fields.len(),
{
    if fields.len() == 0 {
        Seq::empty()
    } else {
        (match spec_get(fields[0].1, "filename"@) {
            Some(v) => match v {
                JsonValue::Str(f) => seq![(f@, arch, spec_stems_text(fields[0].1), fields[0].0@)],
                _ => Seq::empty(),
            },
            None => Seq::empty(),
        }) + spec_category_models(arch, fields.drop_first())
    }
}

/// The catalogue models of the whole document: every object-valued
/// architecture category, in document order.
pub open spec fn spec_doc_models(fields: Seq<(String, JsonValue)>) -> Seq<ModelView>
    decreases fields.len(),
{
    if fields.len() == 0 {
        Seq::empty()
    } else {
        (match fields[0].1 {
            JsonValue::Obj(cat) => spec_category_models(fields[0].0@, cat@),
            _ => Seq::empty(),
        }) + spec_doc_models(fields.drop_first())
    }
}

/// Collects the models of one architecture category.
#[verifier::loop_isolation(false)]
fn collect_category(out: &mut Vec<ModelInfo>, arch: &String, fields: &Vec<(String, JsonValue)>)
    ensures
        mviews(final(out)@) == mviews(old(out)@) + spec_category_models(arch@, fields@),
{
    let len = fields.len();
    let mut i: usize = 0;
    proof {
        assert(fields@.subrange(0, len as int) =~= fields@);
        assert(mviews(out@) + spec_category_models(arch@, fields@.subrange(len as int, len as int))
            =~= mviews(out@));
    }
    while i < len
        invariant
            i <= len,
            mviews(old(out)@) + spec_category_models(arch@, fields@) == mviews(out@)
                + spec_category_models(arch@, fields@.subrange(i as int, len as int)),
        decreases len - i,
    {
        proof {
            let rest = fields@.subrange(i as int, len as int);
            assert(rest[0] == fields@[i as int]);
            assert(rest.drop_first() =~= fields@.subrange(i + 1, len as int));
        }
        let mval = &fields[i].1;
        match mval.get("filename") {
            Some(fv) => match fv.as_str() {
                Some(f) => {
                    let m = ModelInfo {
                        filename: f.clone(),
                        arch: arch.clone(),
                        output_stems: stems_text(mval),
                        friendly_name: fields[i].0.clone(),
                    };
                    let ghost before = out@;
                    out.push(m);
                    proof {
                        assert(mviews(out@) =~= mviews(before).push(mview(m)));
                        assert(mviews(before).push(mview(m)) =~= mviews(before) + seq![mview(m)]);
                    }
                },
                None => {},
            },
            None => {},
        }
        i = i + 1;
    }
    proof {
        assert(spec_category_models(arch@, fields@.subrange(len as int, len as int)) =~= Seq::<
            ModelView,
        >::empty());
    }
}

/// Reads the engine's model catalogue out of its structured listing.
/// Succeeds exactly on an object document; anything else is the documented
/// malformed-response failure.
#[verifier::loop_isolation(false)]
pub fn parse_model_list(doc: &JsonValue) -> (r: Result<Vec<ModelInfo>, OrchestratorError>)
    ensures
        r is Ok <==> doc is Obj,
        r is Ok ==> mviews(r->Ok_0@) == spec_doc_models(doc->Obj_0@),
        r is Err ==> r->Err_0 is MalformedUpstreamData && r->Err_0->MalformedUpstreamData_0@
            == "Invalid JSON format: expected object structure"@,
{
    match doc {
        JsonValue::Obj(fields) => {
            let len = fields.len();
            let mut out: Vec<ModelInfo> = Vec::new();
            let mut i: usize = 0;
            proof {
                assert(fields@.subrange(0, len as int) =~= fields@);
                assert(mviews(out@) =~= Seq::<ModelView>::empty());
            }
            while i < len
                invariant
                    i <= len,
                    spec_doc_models(fields@) == mviews(out@) + spec_doc_models(
                        fields@.subrange(i as int, len as int),
                    ),
                decreases len - i,
            {
                proof {
                    let rest = fields@.subrange(i as int, len as int);
                    assert(rest[0] == fields@[i as int]);
                    assert(rest.drop_first() =~= fields@.subrange(i + 1, len as int));
                }
                match &fields[i].1 {
                    JsonValue::Obj(cat) => {
                        collect_category(&mut out, &fields[i].0, cat);
                    },
                    _ => {},
                }
                i = i + 1;
            }
            proof {
                assert(spec_doc_models(fields@.subrange(len as int, len as int)) =~= Seq::<
                    ModelView,
                >::empty());
            }
            Ok(out)
        },
        _ => Err(
            OrchestratorError::MalformedUpstreamData(
                "Invalid JSON format: expected object structure".to_owned(),
            ),
        ),
    }
}

/// Reads the engine's model catalogue straight out of its listing text.
/// Succeeds exactly on a well-formed text denoting an object document, and
/// then carries that document's catalogue; malformed text and any other
/// document are the documented malformed-response failure.
pub fn model_list_from_text(text: &str) -> (r: Result<Vec<ModelInfo>, OrchestratorError>)
    ensures
        json_text_wellformed(text@) ==> (r is Ok <==> json_doc_of(text@) is Obj),
        !json_text_wellformed(text@) ==> r is Err,
        r is Ok ==> mviews(r->Ok_0@) == spec_doc_models(json_doc_of(text@)->Obj_0@),
        r is Err ==> r->Err_0 is MalformedUpstreamData,
{
    match crate::json::parse_json(text) {
        Some(doc) => parse_model_list(&doc),
        None => Err(
            OrchestratorError::MalformedUpstreamData("Failed to parse models JSON".to_owned()),
        ),
    }
}

/// A file name that is an actual model file.
pub open spec fn spec_is_model_file(name: Seq<char>) -> bool {
    ||| is_suffix_of(".ckpt"@, name)
    ||| is_suffix_of(".pth"@, name)
    ||| is_suffix_of(".onnx"@, name)
    ||| is_suffix_of(".safetensors"@, name)
    ||| is_suffix_of(".bin"@, name)
}

/// The display name of a model file: separators turned to spaces, then
/// every model-extension occurrence removed, in the fixed order.
pub open spec fn spec_friendly_name(name: Seq<char>) -> Seq<char> {
    remove_all_spec(
        remove_all_spec(
            remove_all_spec(
                remove_all_spec(remove_all_spec(spaced(name), ".ckpt"@), ".pth"@),
                ".onnx"@,
            ),
            ".safetensors"@,
        ),
        ".bin"@,
    )
}

/// Builds the display name of a model file.
pub fn friendly_name_of(name: &str) -> (r: String)
    ensures
        r@ == spec_friendly_name(name@),
{
    proof {
        reveal_strlit(".ckpt");
        reveal_strlit(".pth");
        reveal_strlit(".onnx");
        reveal_strlit(".safetensors");
        reveal_strlit(".bin");
    }
    let a = replace_seps_with_spaces(name);
    let b = remove_all(a.as_str(), ".ckpt");
    let c = remove_all(b.as_str(), ".pth");
    let d = remove_all(c.as_str(), ".onnx");
    let e = remove_all(d.as_str(), ".safetensors");
    remove_all(e.as_str(), ".bin")
}

/// The mathematical content of one on-disk model.
pub type DownloadedView = (Seq<char>, Seq<char>);

/// The content of one on-disk model: filename and display name.
pub open spec fn dview(m: DownloadedModel) -> DownloadedView {
    (m.filename@, m.friendly_name@)
}

/// The contents of an on-disk model listing.
pub open spec fn dviews(s: Seq<DownloadedModel>) -> Seq<DownloadedView> {
    s.map_values(|m: DownloadedModel| dview(m))
}

/// The on-disk models among a directory's entries: the regular files with
/// a model extension, in directory order, each with its display name.
pub open spec fn spec_downloaded_models(ms: Seq<FileMeta>) -> Seq<DownloadedView>
    decreases ms.len(),
{
    if ms.len() == 0 {
        Seq::empty()
    } else {
        (if ms[0].is_file && spec_is_model_file(ms[0].name@) {
            seq![(ms[0].name@, spec_friendly_name(ms[0].name@))]
        } else {
            Seq::empty()
        }) + spec_downloaded_models(ms.drop_first())
    }
}

/// Lists the on-disk models among a directory's entries.
#[verifier::loop_isolation(false)]
pub fn list_downloaded_models(entries: &Vec<FileMeta>) -> (r: Vec<DownloadedModel>)
    ensures
        dviews(r@) == spec_downloaded_models(entries@),
{
    let len = entries.len();
    let mut r: Vec<DownloadedModel> = Vec::new();
    let mut i: usize = 0;
    proof {
        assert(entries@.subrange(0, len as int) =~= entries@);
        assert(dviews(r@) =~= Seq::<DownloadedView>::empty());
    }
    while i < len
        invariant
            i <= len,
            spec_downloaded_models(entries@) == dviews(r@) + spec_downloaded_models(
                entries@.subrange(i as int, len as int),
            ),
        decreases len - i,
    {
        proof {
            let rest = entries@.subrange(i as int, len as int);
            assert(rest[0] == entries@[i as int]);
            assert(rest.drop_first() =~= entries@.subrange(i + 1, len as int));
        }
        let m = &entries[i];
        let keep = if m.is_file {
            str_ends_with(m.name.as_str(), ".ckpt") || str_ends_with(m.name.as_str(), ".pth")
                || str_ends_with(m.name.as_str(), ".onnx") || str_ends_with(
                m.name.as_str(),
                ".safetensors",
            ) || str_ends_with(m.name.as_str(), ".bin")
        } else {
            false
        };
        if keep {
            let d = DownloadedModel {
                filename: m.name.clone(),
                friendly_name: friendly_name_of(m.name.as_str()),
            };
            let ghost before = r@;
            r.push(d);
            proof {
                assert(dviews(r@) =~= dviews(before).push(dview(d)));
                assert(dviews(before).push(dview(d)) =~= dviews(before) + seq![dview(d)]);
            }
        }
        i = i + 1;
    }
    proof {
        assert(spec_downloaded_models(entries@.subrange(len as int, len as int)) =~= Seq::<
            DownloadedView,
        >::empty());
    }
    r
}

} // verus!
