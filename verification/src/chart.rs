//! Verified decoding of a chart's metadata descriptor from the tool's
//! YAML output, read through a JSON-shaped document: required name and
//! version, optional scalar fields, string lists, maintainer and
//! dependency entries, and a string-to-string annotation map.

use vstd::prelude::*;

use crate::data::ChartDependency;
use crate::data::ChartDependencyV;
use crate::data::ChartInfo;
use crate::data::ChartInfoV;
use crate::data::ChartMaintainer;
use crate::data::ChartMaintainerV;
use crate::data::pairs_map;
use crate::decode::decode_seq;
use crate::decode::j_str;
use crate::decode::lemma_decode_seq;
use crate::decode::str_of_json;
use crate::json::Json;
use crate::json::json_as_array;
use crate::json::json_as_bool;
use crate::json::json_as_str;
use crate::json::json_get;
use crate::json::json_is_null;
use crate::json::json_is_object;
use crate::json::json_model;
use crate::json::json_object_entries;
use crate::json::parse_yaml;
use crate::json::yaml_of;

verus! {

/// An optional string field: absent or null stands for nothing, a string
/// for itself, anything else is ill-typed.
pub open spec fn j_opt_str(m: Map<Seq<char>, Json>, k: Seq<char>) -> Option<Option<Seq<char>>> {
    if !m.contains_key(k) {
        Some(None)
    } else {
        match m[k] {
            Json::Null => Some(None),
            Json::Str(s) => Some(Some(s)),
            _ => None,
        }
    }
}

/// An optional boolean field.
pub open spec fn j_opt_bool(m: Map<Seq<char>, Json>, k: Seq<char>) -> Option<Option<bool>> {
    if !m.contains_key(k) {
        Some(None)
    } else {
        match m[k] {
            Json::Null => Some(None),
            Json::Bool(b) => Some(Some(b)),
            _ => None,
        }
    }
}

/// An optional field holding an array of strings.
pub open spec fn j_opt_str_arr(m: Map<Seq<char>, Json>, k: Seq<char>) -> Option<
    Option<Seq<Seq<char>>>,
> {
    if !m.contains_key(k) {
        Some(None)
    } else {
        match m[k] {
            Json::Null => Some(None),
            Json::Arr(elems) => match decode_seq(elems, |e: Json| str_of_json(e)) {
                Some(ss) => Some(Some(ss)),
                None => None,
            },
            _ => None,
        }
    }
}

/// The maintainer entry a JSON value holds.
pub open spec fn maintainer_of_json(j: Json) -> Option<ChartMaintainerV> {
    match j {
        Json::Obj(m) => match (j_str(m, "name"@), j_opt_str(m, "url"@), j_opt_str(m, "email"@)) {
            (Some(name), Some(url), Some(email)) => Some(ChartMaintainerV { name, url, email }),
            _ => None,
        },
        _ => None,
    }
}

/// An optional field holding an array of maintainer entries.
pub open spec fn j_opt_maintainers(m: Map<Seq<char>, Json>, k: Seq<char>) -> Option<
    Option<Seq<ChartMaintainerV>>,
> {
    if !m.contains_key(k) {
        Some(None)
    } else {
        match m[k] {
            Json::Null => Some(None),
            Json::Arr(elems) => match decode_seq(elems, |e: Json| maintainer_of_json(e)) {
                Some(ms) => Some(Some(ms)),
                None => None,
            },
            _ => None,
        }
    }
}

/// The dependency entry a JSON value holds.
pub open spec fn dependency_of_json(j: Json) -> Option<ChartDependencyV> {
    match j {
        Json::Obj(m) => match (j_str(m, "name"@), j_str(m, "repository"@), j_str(m, "version"@)) {
            (Some(name), Some(repository), Some(version)) => match (
                j_opt_str(m, "condition"@),
                j_opt_str_arr(m, "tags"@),
                j_opt_bool(m, "enabled"@),
                j_opt_str(m, "alias"@),
            ) {
                (Some(condition), Some(tags), Some(enabled), Some(alias)) => Some(
                    ChartDependencyV { name, repository, version, condition, tags, enabled, alias },
                ),
                _ => None,
            },
            _ => None,
        },
        _ => None,
    }
}

/// An optional field holding an array of dependency entries.
pub open spec fn j_opt_dependencies(m: Map<Seq<char>, Json>, k: Seq<char>) -> Option<
    Option<Seq<ChartDependencyV>>,
> {
    if !m.contains_key(k) {
        Some(None)
    } else {
        match m[k] {
            Json::Null => Some(None),
            Json::Arr(elems) => match decode_seq(elems, |e: Json| dependency_of_json(e)) {
                Some(ds) => Some(Some(ds)),
                None => None,
            },
            _ => None,
        }
    }
}

/// The string-to-string map a JSON object holds, when every value is a
/// string.
pub open spec fn str_map_of_json(j: Json) -> Option<Map<Seq<char>, Seq<char>>> {
    match j {
        Json::Obj(m) => if forall|k: Seq<char>| #[trigger] m.contains_key(k) ==> m[k] is Str {
            Some(Map::new(|k: Seq<char>| m.contains_key(k), |k: Seq<char>| m[k]->Str_0))
        } else {
            None
        },
        _ => None,
    }
}

/// An optional field holding a string-to-string map.
pub open spec fn j_opt_annotations(m: Map<Seq<char>, Json>, k: Seq<char>) -> Option<
    Option<Map<Seq<char>, Seq<char>>>,
> {
    if !m.contains_key(k) {
        Some(None)
    } else {
        match m[k] {
            Json::Null => Some(None),
            _ => match str_map_of_json(m[k]) {
                Some(sm) => Some(Some(sm)),
                None => None,
            },
        }
    }
}

/// The metadata descriptor a JSON-shaped document holds.
pub open spec fn chart_info_of_json(j: Json) -> Option<ChartInfoV> {
    match j {
        Json::Obj(m) => match (j_str(m, "name"@), j_str(m, "version"@)) {
            (Some(name), Some(version)) => match (
                j_opt_str(m, "icon"@),
                j_opt_str(m, "description"@),
                j_opt_str(m, "type"@),
                j_opt_str(m, "kubeVersion"@),
                j_opt_str(m, "apiVersion"@),
                j_opt_str(m, "appVersion"@),
                j_opt_str(m, "home"@),
                j_opt_str(m, "condition"@),
            ) {
                (
                    Some(icon),
                    Some(description),
                    Some(chart_type),
                    Some(kube_version),
                    Some(api_version),
                    Some(app_version),
                    Some(home),
                    Some(condition),
                ) => match (
                    j_opt_str_arr(m, "sources"@),
                    j_opt_str_arr(m, "keywords"@),
                    j_opt_str_arr(m, "tags"@),
                    j_opt_bool(m, "deprecated"@),
                    j_opt_maintainers(m, "maintainers"@),
                    j_opt_annotations(m, "annotations"@),
                    j_opt_dependencies(m, "dependencies"@),
                ) {
                    (
                        Some(sources),
                        Some(keywords),
                        Some(tags),
                        Some(deprecated),
                        Some(maintainers),
                        Some(annotations),
                        Some(dependencies),
                    ) => Some(
                        ChartInfoV {
                            icon,
                            name,
                            description,
                            chart_type,
                            version,
                            kube_version,
                            api_version,
                            app_version,
                            home,
                            sources,
                            keywords,
                            maintainers,
                            annotations,
                            dependencies,
                            condition,
                            tags,
                            deprecated,
                        },
                    ),
                    _ => None,
                },
                _ => None,
            },
            _ => None,
        },
        _ => None,
    }
}

/// The metadata descriptor a YAML text denotes.
pub open spec fn chart_info_of_yaml(s: Seq<char>) -> Option<ChartInfoV> {
    match yaml_of(s) {
        Some(j) => chart_info_of_json(j),
        None => None,
    }
}

/// Fetch an optional string field of a JSON object.
pub fn get_opt_str(v: &serde_json::Value, key: &str) -> (r: Option<Option<String>>)
    requires
        json_model(*v) is Obj,
    ensures
        ({
            let m = json_model(*v)->Obj_0;
            match r {
                Some(o) => j_opt_str(m, key@) == Some(o.deep_view()),
                None => j_opt_str(m, key@) is None,
            }
        }),
{
    match json_get(v, key) {
        None => Some(None),
        Some(x) => {
            if json_is_null(x) {
                Some(None)
            } else {
                match json_as_str(x) {
                    Some(s) => Some(Some(s.to_owned())),
                    None => None,
                }
            }
        },
    }
}

/// Fetch an optional boolean field of a JSON object.
pub fn get_opt_bool(v: &serde_json::Value, key: &str) -> (r: Option<Option<bool>>)
    requires
        json_model(*v) is Obj,
    ensures
        ({
            let m = json_model(*v)->Obj_0;
            match r {
                Some(o) => j_opt_bool(m, key@) == Some(o),
                None => j_opt_bool(m, key@) is None,
            }
        }),
{
    match json_get(v, key) {
        None => Some(None),
        Some(x) => {
            if json_is_null(x) {
                Some(None)
            } else {
                match json_as_bool(x) {
                    Some(b) => Some(Some(b)),
                    None => None,
                }
            }
        },
    }
}

/// Fetch an optional string-array field of a JSON object.
pub fn get_opt_str_arr(v: &serde_json::Value, key: &str) -> (r: Option<Option<Vec<String>>>)
    requires
        json_model(*v) is Obj,
    ensures
        ({
            let m = json_model(*v)->Obj_0;
            match r {
                Some(o) => j_opt_str_arr(m, key@) == Some(o.deep_view()),
                None => j_opt_str_arr(m, key@) is None,
            }
        }),
{
    let x = match json_get(v, key) {
        None => {
            return Some(None);
        },
        Some(x) => x,
    };
    if json_is_null(x) {
        return Some(None);
    }
    let a = match json_as_array(x) {
        Some(a) => a,
        None => {
            return None;
        },
    };
    let ghost m = json_model(*v)->Obj_0;
    let ghost elems = a@.map_values(|e: serde_json::Value| json_model(e));
    let ghost f = |e: Json| str_of_json(e);
    let mut out: Vec<String> = Vec::new();
    let n = a.len();
    for i in 0..n
        invariant
            n == a.len(),
            json_model(*v) is Obj,
            m == json_model(*v)->Obj_0,
            m.contains_key(key@),
            m[key@] == Json::Arr(elems),
            elems == a@.map_values(|e: serde_json::Value| json_model(e)),
            f == (|e: Json| str_of_json(e)),
            out@.len() == i,
            forall|j: int| 0 <= j < i ==> f(elems[j]) == Some(out@[j]@),
    {
        match json_as_str(&a[i]) {
            Some(s) => out.push(s.to_owned()),
            None => {
                proof {
                    assert(elems[i as int] == json_model(a@[i as int]));
                    assert(f(elems[i as int]) is None);
                    lemma_decode_seq(elems, f);
                }
                return None;
            },
        }
    }
    proof {
        lemma_decode_seq(elems, f);
        assert(decode_seq(elems, f).unwrap() =~= out.deep_view());
    }
    Some(Some(out))
}

/// Decode one maintainer entry.
pub fn maintainer_from_value(v: &serde_json::Value) -> (r: Option<ChartMaintainer>)
    ensures
        match r {
            Some(mt) => maintainer_of_json(json_model(*v)) == Some(mt@),
            None => maintainer_of_json(json_model(*v)) is None,
        },
{
    if !json_is_object(v) {
        return None;
    }
    let name = match crate::decode::get_str(v, "name") {
        Some(s) => s,
        None => {
            return None;
        },
    };
    let url = match get_opt_str(v, "url") {
        Some(o) => o,
        None => {
            return None;
        },
    };
    let email = match get_opt_str(v, "email") {
        Some(o) => o,
        None => {
            return None;
        },
    };
    Some(ChartMaintainer { name, url, email })
}

/// Decode one dependency entry.
pub fn dependency_from_value(v: &serde_json::Value) -> (r: Option<ChartDependency>)
    ensures
        match r {
            Some(d) => dependency_of_json(json_model(*v)) == Some(d@),
            None => dependency_of_json(json_model(*v)) is None,
        },
{
    if !json_is_object(v) {
        return None;
    }
    let name = match crate::decode::get_str(v, "name") {
        Some(s) => s,
        None => {
            return None;
        },
    };
    let repository = match crate::decode::get_str(v, "repository") {
        Some(s) => s,
        None => {
            return None;
        },
    };
    let version = match crate::decode::get_str(v, "version") {
        Some(s) => s,
        None => {
            return None;
        },
    };
    let condition = match get_opt_str(v, "condition") {
        Some(o) => o,
        None => {
            return None;
        },
    };
    let tags = match get_opt_str_arr(v, "tags") {
        Some(o) => o,
        None => {
            return None;
        },
    };
    let enabled = match get_opt_bool(v, "enabled") {
        Some(o) => o,
        None => {
            return None;
        },
    };
    let alias = match get_opt_str(v, "alias") {
        Some(o) => o,
        None => {
            return None;
        },
    };
    Some(ChartDependency { name, repository, version, condition, tags, enabled, alias })
}

/// Fetch an optional maintainer-array field of a JSON object.
pub fn get_opt_maintainers(v: &serde_json::Value, key: &str) -> (r: Option<
    Option<Vec<ChartMaintainer>>,
>)
    requires
        json_model(*v) is Obj,
    ensures
        ({
            let m = json_model(*v)->Obj_0;
            match r {
                Some(o) => j_opt_maintainers(m, key@) == Some(o.deep_view()),
                None => j_opt_maintainers(m, key@) is None,
            }
        }),
{
    let x = match json_get(v, key) {
        None => {
            return Some(None);
        },
        Some(x) => x,
    };
    if json_is_null(x) {
        return Some(None);
    }
    let a = match json_as_array(x) {
        Some(a) => a,
        None => {
            return None;
        },
    };
    let ghost m = json_model(*v)->Obj_0;
    let ghost elems = a@.map_values(|e: serde_json::Value| json_model(e));
    let ghost f = |e: Json| maintainer_of_json(e);
    let mut out: Vec<ChartMaintainer> = Vec::new();
    let n = a.len();
    for i in 0..n
        invariant
            n == a.len(),
            json_model(*v) is Obj,
            m == json_model(*v)->Obj_0,
            m.contains_key(key@),
            m[key@] == Json::Arr(elems),
            elems == a@.map_values(|e: serde_json::Value| json_model(e)),
            f == (|e: Json| maintainer_of_json(e)),
            out@.len() == i,
            forall|j: int| 0 <= j < i ==> f(elems[j]) == Some(out@[j]@),
    {
        match maintainer_from_value(&a[i]) {
            Some(mt) => out.push(mt),
            None => {
                proof {
                    assert(elems[i as int] == json_model(a@[i as int]));
                    assert(f(elems[i as int]) is None);
                    lemma_decode_seq(elems, f);
                }
                return None;
            },
        }
    }
    proof {
        lemma_decode_seq(elems, f);
        assert(decode_seq(elems, f).unwrap() =~= out.deep_view());
    }
    Some(Some(out))
}

/// Fetch an optional dependency-array field of a JSON object.
pub fn get_opt_dependencies(v: &serde_json::Value, key: &str) -> (r: Option<
    Option<Vec<ChartDependency>>,
>)
    requires
        json_model(*v) is Obj,
    ensures
        ({
            let m = json_model(*v)->Obj_0;
            match r {
                Some(o) => j_opt_dependencies(m, key@) == Some(o.deep_view()),
                None => j_opt_dependencies(m, key@) is None,
            }
        }),
{
    let x = match json_get(v, key) {
        None => {
            return Some(None);
        },
        Some(x) => x,
    };
    if json_is_null(x) {
        return Some(None);
    }
    let a = match json_as_array(x) {
        Some(a) => a,
        None => {
            return None;
        },
    };
    let ghost m = json_model(*v)->Obj_0;
    let ghost elems = a@.map_values(|e: serde_json::Value| json_model(e));
    let ghost f = |e: Json| dependency_of_json(e);
    let mut out: Vec<ChartDependency> = Vec::new();
    let n = a.len();
    for i in 0..n
        invariant
            n == a.len(),
            json_model(*v) is Obj,
            m == json_model(*v)->Obj_0,
            m.contains_key(key@),
            m[key@] == Json::Arr(elems),
            elems == a@.map_values(|e: serde_json::Value| json_model(e)),
            f == (|e: Json| dependency_of_json(e)),
            out@.len() == i,
            forall|j: int| 0 <= j < i ==> f(elems[j]) == Some(out@[j]@),
    {
        match dependency_from_value(&a[i]) {
            Some(d) => out.push(d),
            None => {
                proof {
                    assert(elems[i as int] == json_model(a@[i as int]));
                    assert(f(elems[i as int]) is None);
                    lemma_decode_seq(elems, f);
                }
                return None;
            },
        }
    }
    proof {
        lemma_decode_seq(elems, f);
        assert(decode_seq(elems, f).unwrap() =~= out.deep_view());
    }
    Some(Some(out))
}

/// Key/value pairs that enumerate a JSON object whose values are all
/// strings stand, as a sequence, for exactly that object's string map.
proof fn lemma_pairs_map_entries(ps: Seq<(String, String)>, m: Map<Seq<char>, Json>)
    requires
        ps.map_values(|p: (String, String)| p.0@).no_duplicates(),
        forall|i: int|
            0 <= i < ps.len() ==> m.contains_key(#[trigger] ps[i].0@) && m[ps[i].0@] == Json::Str(
                ps[i].1@,
            ),
        forall|k: Seq<char>| #[trigger] m.contains_key(k) ==> exists|i: int|
            0 <= i < ps.len() && ps[i].0@ == k,
    ensures
        str_map_of_json(Json::Obj(m)) is Some,
        pairs_map(ps) == str_map_of_json(Json::Obj(m)).unwrap(),
    decreases ps.len(),
{
    let keys = ps.map_values(|p: (String, String)| p.0@);
    assert forall|k: Seq<char>| #[trigger] m.contains_key(k) implies m[k] is Str by {
        let i = choose|i: int| 0 <= i < ps.len() && ps[i].0@ == k;
        assert(m[ps[i].0@] == Json::Str(ps[i].1@));
    }
    let target = str_map_of_json(Json::Obj(m)).unwrap();
    if ps.len() == 0 {
        assert forall|k: Seq<char>| !(#[trigger] m.contains_key(k)) by {
            if m.contains_key(k) {
                let i = choose|i: int| 0 <= i < ps.len() && ps[i].0@ == k;
            }
        }
        assert(pairs_map(ps) =~= target);
    } else {
        let ps0 = ps.drop_last();
        let last = ps.last();
        let m0 = m.remove(last.0@);
        let keys0 = ps0.map_values(|p: (String, String)| p.0@);
        assert(keys0 =~= keys.drop_last());
        assert forall|i: int, j: int| 0 <= i < j < keys0.len() implies keys0[i] != keys0[j] by {
            assert(keys[i] == keys0[i] && keys[j] == keys0[j]);
        }
        assert forall|i: int|
            0 <= i < ps0.len() implies m0.contains_key(#[trigger] ps0[i].0@) && m0[ps0[i].0@]
            == Json::Str(ps0[i].1@) by {
            assert(ps0[i] == ps[i]);
            assert(keys[i] != keys[ps.len() - 1]);
            assert(ps[i].0@ != last.0@);
        }
        assert forall|k: Seq<char>| #[trigger] m0.contains_key(k) implies exists|i: int|
            0 <= i < ps0.len() && ps0[i].0@ == k by {
            assert(m.contains_key(k));
            let i = choose|i: int| 0 <= i < ps.len() && ps[i].0@ == k;
            assert(k != last.0@);
            assert(i != ps.len() - 1);
            assert(ps0[i] == ps[i]);
        }
        lemma_pairs_map_entries(ps0, m0);
        assert(pairs_map(ps) == pairs_map(ps0).insert(last.0@, last.1@));
        assert(m.contains_key(last.0@) && m[last.0@] == Json::Str(last.1@));
        assert(pairs_map(ps) =~= target);
    }
}

/// Fetch an optional annotation-map field of a JSON object.
pub fn get_opt_annotations(v: &serde_json::Value, key: &str) -> (r: Option<
    Option<Vec<(String, String)>>,
>)
    requires
        json_model(*v) is Obj,
    ensures
        ({
            let m = json_model(*v)->Obj_0;
            match r {
                Some(Some(ps)) => j_opt_annotations(m, key@) == Some(Some(pairs_map(ps@))),
                Some(None) => j_opt_annotations(m, key@) == Some(None::<Map<Seq<char>, Seq<char>>>),
                None => j_opt_annotations(m, key@) is None,
            }
        }),
{
    let x = match json_get(v, key) {
        None => {
            return Some(None);
        },
        Some(x) => x,
    };
    if json_is_null(x) {
        return Some(None);
    }
    let entries = match json_object_entries(x) {
        Some(es) => es,
        None => {
            return None;
        },
    };
    let ghost m = json_model(*v)->Obj_0;
    let ghost m2 = json_model(*x)->Obj_0;
    let mut out: Vec<(String, String)> = Vec::new();
    let n = entries.len();
    for i in 0..n
        invariant
            n == entries.len(),
            json_model(*v) is Obj,
            m == json_model(*v)->Obj_0,
            m.contains_key(key@),
            m[key@] == json_model(*x),
            json_model(*x) is Obj,
            m2 == json_model(*x)->Obj_0,
            !(json_model(*x) is Null),
            entries@.map_values(|p: (String, serde_json::Value)| p.0@).no_duplicates(),
            forall|j: int|
                0 <= j < entries@.len() ==> m2.contains_key(#[trigger] entries@[j].0@) && m2[entries@[j].0@]
                    == json_model(entries@[j].1),
            forall|k: Seq<char>| #[trigger] m2.contains_key(k) ==> exists|j: int|
                0 <= j < entries@.len() && entries@[j].0@ == k,
            out@.len() == i,
            forall|j: int| 0 <= j < i ==> out@[j].0@ == #[trigger] entries@[j].0@,
            forall|j: int|
                0 <= j < i ==> json_model(#[trigger] entries@[j].1) == Json::Str(out@[j].1@),
    {
        let s = match json_as_str(&entries[i].1) {
            Some(s) => s.to_owned(),
            None => {
                proof {
                    assert(m2.contains_key(entries@[i as int].0@));
                    assert(!(m2[entries@[i as int].0@] is Str));
                    assert(str_map_of_json(json_model(*x)) is None);
                }
                return None;
            },
        };
        let k = entries[i].0.clone();
        let ghost prev = out@;
        out.push((k, s));
        proof {
            assert(out@ == prev.push((k, s)));
            assert forall|j: int| 0 <= j < i + 1 implies out@[j].0@ == #[trigger] entries@[j].0@ by {
                if j < i {
                    assert(out@[j] == prev[j]);
                } else {
                    assert(out@[j] == (k, s));
                }
            }
            assert forall|j: int|
                0 <= j < i + 1 implies json_model(#[trigger] entries@[j].1) == Json::Str(
                out@[j].1@,
            ) by {
                if j < i {
                    assert(out@[j] == prev[j]);
                } else {
                    assert(out@[j] == (k, s));
                }
            }
        }
    }
    proof {
        let okeys = out@.map_values(|p: (String, String)| p.0@);
        let ekeys = entries@.map_values(|p: (String, serde_json::Value)| p.0@);
        assert(okeys =~= ekeys);
        assert forall|j: int|
            0 <= j < out@.len() implies m2.contains_key(#[trigger] out@[j].0@) && m2[out@[j].0@]
            == Json::Str(out@[j].1@) by {
            assert(out@[j].0@ == entries@[j].0@);
            assert(json_model(entries@[j].1) == Json::Str(out@[j].1@));
        }
        assert forall|k: Seq<char>| #[trigger] m2.contains_key(k) implies exists|j: int|
            0 <= j < out@.len() && out@[j].0@ == k by {
            let j = choose|j: int| 0 <= j < entries@.len() && entries@[j].0@ == k;
            assert(out@[j].0@ == entries@[j].0@);
        }
        lemma_pairs_map_entries(out@, m2);
    }
    Some(Some(out))
}

/// Decode a chart metadata descriptor from a JSON-shaped document.
pub fn chart_info_from_value(v: &serde_json::Value) -> (r: Option<ChartInfo>)
    ensures
        match r {
            Some(ci) => chart_info_of_json(json_model(*v)) == Some(ci@),
            None => chart_info_of_json(json_model(*v)) is None,
        },
{
    if !json_is_object(v) {
        return None;
    }
    let name = match crate::decode::get_str(v, "name") {
        Some(s) => s,
        None => {
            return None;
        },
    };
    let version = match crate::decode::get_str(v, "version") {
        Some(s) => s,
        None => {
            return None;
        },
    };
    let icon = match get_opt_str(v, "icon") {
        Some(o) => o,
        None => {
            return None;
        },
    };
    let description = match get_opt_str(v, "description") {
        Some(o) => o,
        None => {
            return None;
        },
    };
    let chart_type = match get_opt_str(v, "type") {
        Some(o) => o,
        None => {
            return None;
        },
    };
    let kube_version = match get_opt_str(v, "kubeVersion") {
        Some(o) => o,
        None => {
            return None;
        },
    };
    let api_version = match get_opt_str(v, "apiVersion") {
        Some(o) => o,
        None => {
            return None;
        },
    };
    let app_version = match get_opt_str(v, "appVersion") {
        Some(o) => o,
        None => {
            return None;
        },
    };
    let home = match get_opt_str(v, "home") {
        Some(o) => o,
        None => {
            return None;
        },
    };
    let condition = match get_opt_str(v, "condition") {
        Some(o) => o,
        None => {
            return None;
        },
    };
    let sources = match get_opt_str_arr(v, "sources") {
        Some(o) => o,
        None => {
            return None;
        },
    };
    let keywords = match get_opt_str_arr(v, "keywords") {
        Some(o) => o,
        None => {
            return None;
        },
    };
    let tags = match get_opt_str_arr(v, "tags") {
        Some(o) => o,
        None => {
            return None;
        },
    };
    let deprecated = match get_opt_bool(v, "deprecated") {
        Some(o) => o,
        None => {
            return None;
        },
    };
    let maintainers = match get_opt_maintainers(v, "maintainers") {
        Some(o) => o,
        None => {
            return None;
        },
    };
    let annotations = match get_opt_annotations(v, "annotations") {
        Some(o) => o,
        None => {
            return None;
        },
    };
    let dependencies = match get_opt_dependencies(v, "dependencies") {
        Some(o) => o,
        None => {
            return None;
        },
    };
    Some(
        ChartInfo {
            icon,
            name,
            description,
            chart_type,
            version,
            kube_version,
            api_version,
            app_version,
            home,
            sources,
            keywords,
            maintainers,
            annotations,
            dependencies,
            condition,
            tags,
            deprecated,
        },
    )
}

/// Decode a chart metadata descriptor from the tool's YAML output.
pub fn chart_info_from_yaml(s: &str) -> (r: Option<ChartInfo>)
    ensures
        match r {
            Some(ci) => chart_info_of_yaml(s@) == Some(ci@),
            None => chart_info_of_yaml(s@) is None,
        },
{
    let v = match parse_yaml(s) {
        Some(v) => v,
        None => {
            return None;
        },
    };
    chart_info_from_value(&v)
}

} // verus!
