//! Verified decoding of the tool's output into the entities of this layer.
//! Every decoder is all-or-nothing: it returns the decoded value exactly
//! when the document has the required shape, and nothing otherwise, as the
//! specification functions here state.

use vstd::prelude::*;

use crate::data::ChartListItem;
use crate::data::ChartListItemV;
use crate::data::Release;
use crate::data::ReleaseV;
use crate::data::Repo;
use crate::data::RepoV;
use crate::data::chrono_parsed;
use crate::data::helm_time_layout;
use crate::data::parse_helm_timestamp;
use crate::json::Json;
use crate::json::json_as_array;
use crate::json::json_as_str;
use crate::json::json_get;
use crate::json::json_model;
use crate::json::json_of;
use crate::json::parse_json;

verus! {

/// The string a JSON value holds, when it holds one.
pub open spec fn str_of_json(j: Json) -> Option<Seq<char>> {
    match j {
        Json::Str(s) => Some(s),
        _ => None,
    }
}

/// A required string field: present and a string, or nothing.
pub open spec fn j_str(m: Map<Seq<char>, Json>, k: Seq<char>) -> Option<Seq<char>> {
    if m.contains_key(k) {
        str_of_json(m[k])
    } else {
        None
    }
}

/// Decode every element of a sequence, all-or-nothing.
pub open spec fn decode_seq<T>(elems: Seq<Json>, f: spec_fn(Json) -> Option<T>) -> Option<Seq<T>>
    decreases elems.len(),
{
    if elems.len() == 0 {
        Some(Seq::empty())
    } else {
        match f(elems.first()) {
            Some(t) => match decode_seq(elems.drop_first(), f) {
                Some(rest) => Some(seq![t] + rest),
                None => None,
            },
            None => None,
        }
    }
}

/// `decode_seq` succeeds exactly when every element decodes, and then
/// yields the elementwise decodings in order.
pub proof fn lemma_decode_seq<T>(elems: Seq<Json>, f: spec_fn(Json) -> Option<T>)
    ensures
        decode_seq(elems, f) is Some <==> (forall|i: int| 0 <= i < elems.len() ==> f(elems[i]) is Some),
        decode_seq(elems, f) matches Some(s) ==> s.len() == elems.len() && (forall|i: int|
            0 <= i < elems.len() ==> s[i] == f(elems[i]).unwrap()),
    decreases elems.len(),
{
    if elems.len() > 0 {
        let tail = elems.drop_first();
        lemma_decode_seq(tail, f);
        assert forall|i: int| 0 <= i < tail.len() implies #[trigger] tail[i] == elems[i + 1] by {}
        if f(elems.first()) is Some && decode_seq(tail, f) is Some {
            let x = f(elems.first()).unwrap();
            let s = decode_seq(elems, f).unwrap();
            let rest = decode_seq(tail, f).unwrap();
            assert(rest.len() == elems.len() - 1);
            assert(s == seq![x] + rest);
            assert(seq![x].len() == 1);
            assert forall|i: int| 0 <= i < elems.len() implies #[trigger] f(elems[i]) is Some && s[i]
                == f(elems[i]).unwrap() by {
                if i > 0 {
                    assert(tail[i - 1] == elems[i]);
                    assert(f(tail[i - 1]) is Some);
                    assert((seq![x] + rest)[i] == rest[i - 1]);
                    assert(rest[i - 1] == f(tail[i - 1]).unwrap());
                } else {
                    assert(elems[0] == elems.first());
                    assert(seq![x][0] == x);
                    assert((seq![x] + rest)[0] == seq![x][0]);
                }
            }
        } else if f(elems.first()) is None {
            assert(elems[0] == elems.first());
            assert(!(f(elems[0]) is Some));
        } else {
            let j = choose|j: int| 0 <= j < tail.len() && !(f(tail[j]) is Some);
            assert(tail[j] == elems[j + 1]);
            assert(!(f(elems[j + 1]) is Some));
        }
    }
}

/// The repository record a JSON value holds.
pub open spec fn repo_of_json(j: Json) -> Option<RepoV> {
    match j {
        Json::Obj(m) => match (j_str(m, "name"@), j_str(m, "url"@)) {
            (Some(name), Some(url)) => Some(RepoV { name, url }),
            _ => None,
        },
        _ => None,
    }
}

/// The repository list a JSON document holds.
pub open spec fn repos_of_json(j: Json) -> Option<Seq<RepoV>> {
    match j {
        Json::Arr(elems) => decode_seq(elems, |e: Json| repo_of_json(e)),
        _ => None,
    }
}

/// The repository list a JSON text denotes.
pub open spec fn repos_of_text(s: Seq<char>) -> Option<Seq<RepoV>> {
    match json_of(s) {
        Some(j) => repos_of_json(j),
        None => None,
    }
}

/// The search-result record a JSON value holds.
pub open spec fn chart_item_of_json(j: Json) -> Option<ChartListItemV> {
    match j {
        Json::Obj(m) => match (j_str(m, "name"@), j_str(m, "version"@), j_str(m, "app_version"@), j_str(m, "description"@)) {
            (Some(name), Some(version), Some(app_version), Some(description)) => Some(
                ChartListItemV { name, version, app_version, description },
            ),
            _ => None,
        },
        _ => None,
    }
}

/// The search-result list a JSON document holds.
pub open spec fn chart_items_of_json(j: Json) -> Option<Seq<ChartListItemV>> {
    match j {
        Json::Arr(elems) => decode_seq(elems, |e: Json| chart_item_of_json(e)),
        _ => None,
    }
}

/// The search-result list a JSON text denotes.
pub open spec fn chart_items_of_text(s: Seq<char>) -> Option<Seq<ChartListItemV>> {
    match json_of(s) {
        Some(j) => chart_items_of_json(j),
        None => None,
    }
}

/// The release record a JSON value holds; its `updated` field must match
/// the tool's custom timestamp layout.
pub open spec fn release_of_json(j: Json) -> Option<ReleaseV> {
    match j {
        Json::Obj(m) => match (
            j_str(m, "name"@),
            j_str(m, "namespace"@),
            j_str(m, "revision"@),
            j_str(m, "updated"@),
            j_str(m, "status"@),
            j_str(m, "chart"@),
            j_str(m, "app_version"@),
        ) {
            (Some(name), Some(namespace), Some(revision), Some(updated), Some(status), Some(chart), Some(app_version)) => match chrono_parsed(
                updated,
                helm_time_layout(),
            ) {
                Some(ts) => Some(
                    ReleaseV { name, namespace, revision, updated: ts, status, chart, app_version },
                ),
                None => None,
            },
            _ => None,
        },
        _ => None,
    }
}

/// The release list a JSON document holds.
pub open spec fn releases_of_json(j: Json) -> Option<Seq<ReleaseV>> {
    match j {
        Json::Arr(elems) => decode_seq(elems, |e: Json| release_of_json(e)),
        _ => None,
    }
}

/// The release list a JSON text denotes.
pub open spec fn releases_of_text(s: Seq<char>) -> Option<Seq<ReleaseV>> {
    match json_of(s) {
        Some(j) => releases_of_json(j),
        None => None,
    }
}

/// Fetch a required string field of a JSON object as an owned string.
pub fn get_str(v: &serde_json::Value, key: &str) -> (r: Option<String>)
    ensures
        match json_model(*v) {
            Json::Obj(m) => match r {
                Some(s) => j_str(m, key@) == Some(s@),
                None => j_str(m, key@) is None,
            },
            _ => r is None,
        },
{
    match json_get(v, key) {
        Some(x) => match json_as_str(x) {
            Some(s) => Some(s.to_owned()),
            None => None,
        },
        None => None,
    }
}

/// Decode one repository record.
pub fn repo_from_value(v: &serde_json::Value) -> (r: Option<Repo>)
    ensures
        match r {
            Some(rep) => repo_of_json(json_model(*v)) == Some(rep@),
            None => repo_of_json(json_model(*v)) is None,
        },
{
    let name = match get_str(v, "name") {
        Some(s) => s,
        None => {
            return None;
        },
    };
    let url = match get_str(v, "url") {
        Some(s) => s,
        None => {
            return None;
        },
    };
    Some(Repo { name, url })
}

/// Decode one search-result record.
pub fn chart_item_from_value(v: &serde_json::Value) -> (r: Option<ChartListItem>)
    ensures
        match r {
            Some(item) => chart_item_of_json(json_model(*v)) == Some(item@),
            None => chart_item_of_json(json_model(*v)) is None,
        },
{
    let name = match get_str(v, "name") {
        Some(s) => s,
        None => {
            return None;
        },
    };
    let version = match get_str(v, "version") {
        Some(s) => s,
        None => {
            return None;
        },
    };
    let app_version = match get_str(v, "app_version") {
        Some(s) => s,
        None => {
            return None;
        },
    };
    let description = match get_str(v, "description") {
        Some(s) => s,
        None => {
            return None;
        },
    };
    Some(ChartListItem { name, version, app_version, description })
}

/// Decode one release record.
pub fn release_from_value(v: &serde_json::Value) -> (r: Option<Release>)
    ensures
        match r {
            Some(rel) => release_of_json(json_model(*v)) == Some(rel@),
            None => release_of_json(json_model(*v)) is None,
        },
{
    let name = match get_str(v, "name") {
        Some(s) => s,
        None => {
            return None;
        },
    };
    let namespace = match get_str(v, "namespace") {
        Some(s) => s,
        None => {
            return None;
        },
    };
    let revision = match get_str(v, "revision") {
        Some(s) => s,
        None => {
            return None;
        },
    };
    let updated_text = match get_str(v, "updated") {
        Some(s) => s,
        None => {
            return None;
        },
    };
    let status = match get_str(v, "status") {
        Some(s) => s,
        None => {
            return None;
        },
    };
    let chart = match get_str(v, "chart") {
        Some(s) => s,
        None => {
            return None;
        },
    };
    let app_version = match get_str(v, "app_version") {
        Some(s) => s,
        None => {
            return None;
        },
    };
    let updated = match parse_helm_timestamp(updated_text.as_str()) {
        Some(ts) => ts,
        None => {
            return None;
        },
    };
    Some(Release { name, namespace, revision, updated, status, chart, app_version })
}

/// Decode a whole JSON text as a repository list.
pub fn repos_from_text(s: &str) -> (r: Option<Vec<Repo>>)
    ensures
        match r {
            Some(rs) => repos_of_text(s@) == Some(rs.deep_view()),
            None => repos_of_text(s@) is None,
        },
{
    let v = match parse_json(s) {
        Some(v) => v,
        None => {
            return None;
        },
    };
    let a = match json_as_array(&v) {
        Some(a) => a,
        None => {
            return None;
        },
    };
    let ghost elems = a@.map_values(|e: serde_json::Value| json_model(e));
    let ghost f = |e: Json| repo_of_json(e);
    let mut out: Vec<Repo> = Vec::new();
    let n = a.len();
    for i in 0..n
        invariant
            n == a.len(),
            json_of(s@) == Some(json_model(v)),
            json_model(v) == Json::Arr(elems),
            elems == a@.map_values(|e: serde_json::Value| json_model(e)),
            f == (|e: Json| repo_of_json(e)),
            out@.len() == i,
            forall|j: int| 0 <= j < i ==> f(elems[j]) == Some(out@[j]@),
    {
        match repo_from_value(&a[i]) {
            Some(rep) => out.push(rep),
            None => {
                proof {
                    assert(elems[i as int] == json_model(a@[i as int]));
                    assert(f(elems[i as int]) is None);
                    lemma_decode_seq(elems, f);
                    assert(decode_seq(elems, f) is None);
                }
                return None;
            },
        }
    }
    proof {
        lemma_decode_seq(elems, f);
        assert(decode_seq(elems, f).unwrap() =~= out.deep_view());
    }
    Some(out)
}

/// Decode a whole JSON text as a search-result list.
pub fn chart_items_from_text(s: &str) -> (r: Option<Vec<ChartListItem>>)
    ensures
        match r {
            Some(items) => chart_items_of_text(s@) == Some(items.deep_view()),
            None => chart_items_of_text(s@) is None,
        },
{
    let v = match parse_json(s) {
        Some(v) => v,
        None => {
            return None;
        },
    };
    let a = match json_as_array(&v) {
        Some(a) => a,
        None => {
            return None;
        },
    };
    let ghost elems = a@.map_values(|e: serde_json::Value| json_model(e));
    let ghost f = |e: Json| chart_item_of_json(e);
    let mut out: Vec<ChartListItem> = Vec::new();
    let n = a.len();
    for i in 0..n
        invariant
            n == a.len(),
            json_of(s@) == Some(json_model(v)),
            json_model(v) == Json::Arr(elems),
            elems == a@.map_values(|e: serde_json::Value| json_model(e)),
            f == (|e: Json| chart_item_of_json(e)),
            out@.len() == i,
            forall|j: int| 0 <= j < i ==> f(elems[j]) == Some(out@[j]@),
    {
        match chart_item_from_value(&a[i]) {
            Some(item) => out.push(item),
            None => {
                proof {
                    assert(elems[i as int] == json_model(a@[i as int]));
                    assert(f(elems[i as int]) is None);
                    lemma_decode_seq(elems, f);
                    assert(decode_seq(elems, f) is None);
                }
                return None;
            },
        }
    }
    proof {
        lemma_decode_seq(elems, f);
        assert(decode_seq(elems, f).unwrap() =~= out.deep_view());
    }
    Some(out)
}

/// Decode a whole JSON text as a release list.
pub fn releases_from_text(s: &str) -> (r: Option<Vec<Release>>)
    ensures
        match r {
            Some(rs) => releases_of_text(s@) == Some(rs.deep_view()),
            None => releases_of_text(s@) is None,
        },
{
    let v = match parse_json(s) {
        Some(v) => v,
        None => {
            return None;
        },
    };
    let a = match json_as_array(&v) {
        Some(a) => a,
        None => {
            return None;
        },
    };
    let ghost elems = a@.map_values(|e: serde_json::Value| json_model(e));
    let ghost f = |e: Json| release_of_json(e);
    let mut out: Vec<Release> = Vec::new();
    let n = a.len();
    for i in 0..n
        invariant
            n == a.len(),
            json_of(s@) == Some(json_model(v)),
            json_model(v) == Json::Arr(elems),
            elems == a@.map_values(|e: serde_json::Value| json_model(e)),
            f == (|e: Json| release_of_json(e)),
            out@.len() == i,
            forall|j: int| 0 <= j < i ==> f(elems[j]) == Some(out@[j]@),
    {
        match release_from_value(&a[i]) {
            Some(rel) => out.push(rel),
            None => {
                proof {
                    assert(elems[i as int] == json_model(a@[i as int]));
                    assert(f(elems[i as int]) is None);
                    lemma_decode_seq(elems, f);
                    assert(decode_seq(elems, f) is None);
                }
                return None;
            },
        }
    }
    proof {
        lemma_decode_seq(elems, f);
        assert(decode_seq(elems, f).unwrap() =~= out.deep_view());
    }
    Some(out)
}

} // verus!
