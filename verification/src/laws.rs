//! Round-trip laws of the decoders: encoding an entity as the JSON shape
//! the tool emits and decoding it again yields the entity unchanged, and
//! re-encoding a decoded document preserves its structurally significant
//! fields.

use vstd::prelude::*;

use crate::data::ChartListItemV;
use crate::data::ReleaseV;
use crate::data::RepoV;
use crate::data::chrono_parsed;
use crate::data::helm_time_layout;
use crate::decode::chart_item_of_json;
use crate::decode::chart_items_of_json;
use crate::decode::decode_seq;
use crate::decode::lemma_decode_seq;
use crate::decode::release_of_json;
use crate::decode::releases_of_json;
use crate::decode::repo_of_json;
use crate::decode::repos_of_json;
use crate::json::Json;
use vstd::map::*;

verus! {

/// The JSON shape of one repository record.
pub open spec fn repo_to_json(r: RepoV) -> Json {
    Json::Obj(map!["name"@ => Json::Str(r.name), "url"@ => Json::Str(r.url)])
}

/// The JSON shape of one search-result record.
pub open spec fn chart_item_to_json(c: ChartListItemV) -> Json {
    Json::Obj(
        map![
            "name"@ => Json::Str(c.name),
            "version"@ => Json::Str(c.version),
            "app_version"@ => Json::Str(c.app_version),
            "description"@ => Json::Str(c.description)
        ],
    )
}

/// The JSON shape of one release record, with the `updated` field spelt
/// as a given timestamp text.
pub open spec fn release_to_json(r: ReleaseV, upd: Seq<char>) -> Json {
    Json::Obj(
        map![
            "name"@ => Json::Str(r.name),
            "namespace"@ => Json::Str(r.namespace),
            "revision"@ => Json::Str(r.revision),
            "updated"@ => Json::Str(upd),
            "status"@ => Json::Str(r.status),
            "chart"@ => Json::Str(r.chart),
            "app_version"@ => Json::Str(r.app_version)
        ],
    )
}

/// Encoding a repository record and decoding it again yields the record
/// unchanged.
pub proof fn lemma_repo_round_trip(r: RepoV)
    ensures
        repo_of_json(repo_to_json(r)) == Some(r),
{
    reveal_strlit("name");
    reveal_strlit("url");
    assert("name"@.len() == 4);
    assert("url"@.len() == 3);
}

/// Re-encoding a decoded repository record keeps its name and URL fields
/// exactly as the document had them.
pub proof fn lemma_repo_decode_encode(j: Json)
    requires
        repo_of_json(j) is Some,
    ensures
        j->Obj_0["name"@] == repo_to_json(repo_of_json(j).unwrap())->Obj_0["name"@],
        j->Obj_0["url"@] == repo_to_json(repo_of_json(j).unwrap())->Obj_0["url"@],
{
    reveal_strlit("name");
    reveal_strlit("url");
}

/// Re-encoding a decoded search-result record keeps its four fields
/// exactly as the document had them.
pub proof fn lemma_chart_item_decode_encode(j: Json)
    requires
        chart_item_of_json(j) is Some,
    ensures
        chart_item_to_json(chart_item_of_json(j).unwrap())->Obj_0["name"@] == j->Obj_0["name"@],
        chart_item_to_json(chart_item_of_json(j).unwrap())->Obj_0["version"@]
            == j->Obj_0["version"@],
        chart_item_to_json(chart_item_of_json(j).unwrap())->Obj_0["app_version"@]
            == j->Obj_0["app_version"@],
        chart_item_to_json(chart_item_of_json(j).unwrap())->Obj_0["description"@]
            == j->Obj_0["description"@],
{
    reveal_strlit("name");
    reveal_strlit("version");
    reveal_strlit("app_version");
    reveal_strlit("description");
    assert("name"@.len() == 4);
    assert("version"@.len() == 7);
    assert("app_version"@.len() == 11);
    assert("description"@.len() == 11);
    assert("app_version"@[0] == 'a' && "description"@[0] == 'd');
    assert("app_version"@ != "description"@);
}

/// Re-encoding a decoded release record — with its timestamp spelt as the
/// text the document carried — keeps every field exactly as the document
/// had it.
pub proof fn lemma_release_decode_encode(j: Json)
    requires
        release_of_json(j) is Some,
    ensures
        ({
            let r = release_of_json(j).unwrap();
            let back = release_to_json(r, j->Obj_0["updated"@]->Str_0)->Obj_0;
            &&& back["name"@] == j->Obj_0["name"@]
            &&& back["namespace"@] == j->Obj_0["namespace"@]
            &&& back["revision"@] == j->Obj_0["revision"@]
            &&& back["updated"@] == j->Obj_0["updated"@]
            &&& back["status"@] == j->Obj_0["status"@]
            &&& back["chart"@] == j->Obj_0["chart"@]
            &&& back["app_version"@] == j->Obj_0["app_version"@]
        }),
{
    reveal_strlit("name");
    reveal_strlit("namespace");
    reveal_strlit("revision");
    reveal_strlit("updated");
    reveal_strlit("status");
    reveal_strlit("chart");
    reveal_strlit("app_version");
    assert("name"@.len() == 4);
    assert("namespace"@.len() == 9);
    assert("revision"@.len() == 8);
    assert("updated"@.len() == 7);
    assert("status"@.len() == 6);
    assert("chart"@.len() == 5);
    assert("app_version"@.len() == 11);
}

/// Encoding a whole repository list and decoding it again yields the
/// list unchanged.
pub proof fn lemma_repos_round_trip(rs: Seq<RepoV>)
    ensures
        repos_of_json(Json::Arr(rs.map_values(|r: RepoV| repo_to_json(r)))) == Some(rs),
{
    let elems = rs.map_values(|r: RepoV| repo_to_json(r));
    let f = |e: Json| repo_of_json(e);
    lemma_decode_seq(elems, f);
    assert forall|i: int| 0 <= i < elems.len() implies #[trigger] f(elems[i]) is Some && f(
        elems[i],
    ) == Some(rs[i]) by {
        lemma_repo_round_trip(rs[i]);
    }
    assert(decode_seq(elems, f) is Some);
    assert(decode_seq(elems, f).unwrap() =~= rs);
}

/// Encoding a search-result record and decoding it again yields the
/// record unchanged.
pub proof fn lemma_chart_item_round_trip(c: ChartListItemV)
    ensures
        chart_item_of_json(chart_item_to_json(c)) == Some(c),
{
    reveal_strlit("name");
    reveal_strlit("version");
    reveal_strlit("app_version");
    reveal_strlit("description");
    assert("name"@.len() == 4);
    assert("version"@.len() == 7);
    assert("app_version"@.len() == 11);
    assert("description"@.len() == 11);
    assert("app_version"@[0] == 'a' && "description"@[0] == 'd');
    assert("app_version"@ != "description"@);
}

/// Encoding a whole search-result list and decoding it again yields the
/// list unchanged.
pub proof fn lemma_chart_items_round_trip(cs: Seq<ChartListItemV>)
    ensures
        chart_items_of_json(Json::Arr(cs.map_values(|c: ChartListItemV| chart_item_to_json(c))))
            == Some(cs),
{
    let elems = cs.map_values(|c: ChartListItemV| chart_item_to_json(c));
    let f = |e: Json| chart_item_of_json(e);
    lemma_decode_seq(elems, f);
    assert forall|i: int| 0 <= i < elems.len() implies #[trigger] f(elems[i]) is Some && f(
        elems[i],
    ) == Some(cs[i]) by {
        lemma_chart_item_round_trip(cs[i]);
    }
    assert(decode_seq(elems, f) is Some);
    assert(decode_seq(elems, f).unwrap() =~= cs);
}

/// Encoding a release record — its `updated` field spelt as any text that
/// decodes to the record's timestamp — and decoding it again yields the
/// record unchanged.
pub proof fn lemma_release_round_trip(r: ReleaseV, upd: Seq<char>)
    requires
        chrono_parsed(upd, helm_time_layout()) == Some(r.updated),
    ensures
        release_of_json(release_to_json(r, upd)) == Some(r),
{
    reveal_strlit("name");
    reveal_strlit("namespace");
    reveal_strlit("revision");
    reveal_strlit("updated");
    reveal_strlit("status");
    reveal_strlit("chart");
    reveal_strlit("app_version");
    assert("name"@.len() == 4);
    assert("namespace"@.len() == 9);
    assert("revision"@.len() == 8);
    assert("updated"@.len() == 7);
    assert("status"@.len() == 6);
    assert("chart"@.len() == 5);
    assert("app_version"@.len() == 11);
}

/// Encoding a whole release list, each record's timestamp spelt as a text
/// that decodes to it, and decoding the list again yields it unchanged.
pub proof fn lemma_releases_round_trip(rs: Seq<ReleaseV>, upds: Seq<Seq<char>>)
    requires
        rs.len() == upds.len(),
        forall|i: int|
            0 <= i < rs.len() ==> chrono_parsed(#[trigger] upds[i], helm_time_layout()) == Some(
                rs[i].updated,
            ),
    ensures
        releases_of_json(
            Json::Arr(Seq::new(rs.len(), |i: int| release_to_json(rs[i], upds[i]))),
        ) == Some(rs),
{
    let elems = Seq::new(rs.len(), |i: int| release_to_json(rs[i], upds[i]));
    let f = |e: Json| release_of_json(e);
    lemma_decode_seq(elems, f);
    assert forall|i: int| 0 <= i < elems.len() implies #[trigger] f(elems[i]) is Some && f(
        elems[i],
    ) == Some(rs[i]) by {
        lemma_release_round_trip(rs[i], upds[i]);
    }
    assert(decode_seq(elems, f) is Some);
    assert(decode_seq(elems, f).unwrap() =~= rs);
}

} // verus!
