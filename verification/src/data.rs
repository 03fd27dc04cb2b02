//! The entities this layer produces by decoding tool output, or accepts
//! from the caller for write operations, together with their mathematical
//! views. All are plain value records.

use chrono::Datelike;
use chrono::Timelike;
use vstd::prelude::*;

verus! {

/// A named, URL-addressed source of installable charts.
#[derive(Debug, PartialEq, Eq)]
pub struct Repo {
    pub name: String,
    pub url: String,
}

pub ghost struct RepoV {
    pub name: Seq<char>,
    pub url: Seq<char>,
}

impl View for Repo {
    type V = RepoV;

    open spec fn view(&self) -> RepoV {
        RepoV { name: self.name@, url: self.url@ }
    }
}

impl DeepView for Repo {
    type V = RepoV;

    open spec fn deep_view(&self) -> RepoV {
        self.view()
    }
}

/// A calendar timestamp with a numeric UTC offset, as decoded from the
/// tool's custom `updated` layout.
#[derive(Debug, Clone, Copy, PartialEq, Eq, Structural)]
pub struct Timestamp {
    pub year: i32,
    pub month: u8,
    pub day: u8,
    pub hour: u8,
    pub minute: u8,
    pub second: u8,
    pub nanosecond: u32,
    pub offset_seconds: i32,
}

/// The instant a text names under a strftime layout, `None` when it does
/// not match the layout; it depends on the two texts alone.
pub uninterp spec fn chrono_parsed(s: Seq<char>, fmt: Seq<char>) -> Option<Timestamp>;

/// Relies on `chrono::DateTime::<FixedOffset>::parse_from_str` and the
/// calendar accessors of `chrono::{Datelike, Timelike}`: whether a text
/// matches a layout, and the instant it names, are functions of the two
/// texts alone.
#[verifier::external_body]
pub fn parse_datetime(s: &str, fmt: &str) -> (r: Option<Timestamp>)
    ensures
        r == chrono_parsed(s@, fmt@),
{
    match chrono::DateTime::parse_from_str(s, fmt) {
        Ok(dt) => Some(
            Timestamp {
                year: dt.year(),
                month: dt.month() as u8,
                day: dt.day() as u8,
                hour: dt.hour() as u8,
                minute: dt.minute() as u8,
                second: dt.second() as u8,
                nanosecond: dt.nanosecond(),
                offset_seconds: dt.offset().local_minus_utc(),
            },
        ),
        Err(_) => None,
    }
}

/// The layout the tool emits release timestamps in: calendar date, time
/// with fractional seconds, numeric UTC offset, timezone abbreviation.
pub open spec fn helm_time_layout() -> Seq<char> {
    "%Y-%m-%d %H:%M:%S.%f %z %Z"@
}

/// Decode a release timestamp from the tool's custom layout.
pub fn parse_helm_timestamp(s: &str) -> (r: Option<Timestamp>)
    ensures
        r == chrono_parsed(s@, helm_time_layout()),
{
    parse_datetime(s, "%Y-%m-%d %H:%M:%S.%f %z %Z")
}

/// A named, namespaced instance of an installed chart: a read-only
/// projection of externally managed state.
#[derive(Debug, PartialEq, Eq)]
pub struct Release {
    pub name: String,
    pub namespace: String,
    pub revision: String,
    pub updated: Timestamp,
    pub status: String,
    pub chart: String,
    pub app_version: String,
}

pub ghost struct ReleaseV {
    pub name: Seq<char>,
    pub namespace: Seq<char>,
    pub revision: Seq<char>,
    pub updated: Timestamp,
    pub status: Seq<char>,
    pub chart: Seq<char>,
    pub app_version: Seq<char>,
}

impl View for Release {
    type V = ReleaseV;

    open spec fn view(&self) -> ReleaseV {
        ReleaseV {
            name: self.name@,
            namespace: self.namespace@,
            revision: self.revision@,
            updated: self.updated,
            status: self.status@,
            chart: self.chart@,
            app_version: self.app_version@,
        }
    }
}

impl DeepView for Release {
    type V = ReleaseV;

    open spec fn deep_view(&self) -> ReleaseV {
        self.view()
    }
}

/// One chart found by a repository search.
#[derive(Debug, PartialEq, Eq)]
pub struct ChartListItem {
    pub name: String,
    pub version: String,
    pub app_version: String,
    pub description: String,
}

pub ghost struct ChartListItemV {
    pub name: Seq<char>,
    pub version: Seq<char>,
    pub app_version: Seq<char>,
    pub description: Seq<char>,
}

impl View for ChartListItem {
    type V = ChartListItemV;

    open spec fn view(&self) -> ChartListItemV {
        ChartListItemV {
            name: self.name@,
            version: self.version@,
            app_version: self.app_version@,
            description: self.description@,
        }
    }
}

impl DeepView for ChartListItem {
    type V = ChartListItemV;

    open spec fn deep_view(&self) -> ChartListItemV {
        self.view()
    }
}

/// One maintainer entry of a chart's metadata.
#[derive(Debug, PartialEq, Eq)]
pub struct ChartMaintainer {
    pub name: String,
    pub url: Option<String>,
    pub email: Option<String>,
}

pub ghost struct ChartMaintainerV {
    pub name: Seq<char>,
    pub url: Option<Seq<char>>,
    pub email: Option<Seq<char>>,
}

impl View for ChartMaintainer {
    type V = ChartMaintainerV;

    open spec fn view(&self) -> ChartMaintainerV {
        ChartMaintainerV { name: self.name@, url: self.url.deep_view(), email: self.email.deep_view() }
    }
}

impl DeepView for ChartMaintainer {
    type V = ChartMaintainerV;

    open spec fn deep_view(&self) -> ChartMaintainerV {
        self.view()
    }
}

/// One dependency entry of a chart's metadata.
#[derive(Debug, PartialEq, Eq)]
pub struct ChartDependency {
    pub name: String,
    pub repository: String,
    pub version: String,
    pub condition: Option<String>,
    pub tags: Option<Vec<String>>,
    pub enabled: Option<bool>,
    pub alias: Option<String>,
}

pub ghost struct ChartDependencyV {
    pub name: Seq<char>,
    pub repository: Seq<char>,
    pub version: Seq<char>,
    pub condition: Option<Seq<char>>,
    pub tags: Option<Seq<Seq<char>>>,
    pub enabled: Option<bool>,
    pub alias: Option<Seq<char>>,
}

impl View for ChartDependency {
    type V = ChartDependencyV;

    open spec fn view(&self) -> ChartDependencyV {
        ChartDependencyV {
            name: self.name@,
            repository: self.repository@,
            version: self.version@,
            condition: self.condition.deep_view(),
            tags: self.tags.deep_view(),
            enabled: self.enabled,
            alias: self.alias.deep_view(),
        }
    }
}

impl DeepView for ChartDependency {
    type V = ChartDependencyV;

    open spec fn deep_view(&self) -> ChartDependencyV {
        self.view()
    }
}

/// The map a sequence of key/value pairs stands for, later entries
/// overriding earlier ones.
pub open spec fn pairs_map(s: Seq<(String, String)>) -> Map<Seq<char>, Seq<char>>
    decreases s.len(),
{
    if s.len() == 0 {
        Map::empty()
    } else {
        pairs_map(s.drop_last()).insert(s.last().0@, s.last().1@)
    }
}

/// A chart's metadata descriptor: required name and version, everything
/// else optional, as the tool's metadata output carries it.
#[derive(Debug, PartialEq, Eq)]
pub struct ChartInfo {
    pub icon: Option<String>,
    pub name: String,
    pub description: Option<String>,
    pub chart_type: Option<String>,
    pub version: String,
    pub kube_version: Option<String>,
    pub api_version: Option<String>,
    pub app_version: Option<String>,
    pub home: Option<String>,
    pub sources: Option<Vec<String>>,
    pub keywords: Option<Vec<String>>,
    pub maintainers: Option<Vec<ChartMaintainer>>,
    pub annotations: Option<Vec<(String, String)>>,
    pub dependencies: Option<Vec<ChartDependency>>,
    pub condition: Option<String>,
    pub tags: Option<Vec<String>>,
    pub deprecated: Option<bool>,
}

pub ghost struct ChartInfoV {
    pub icon: Option<Seq<char>>,
    pub name: Seq<char>,
    pub description: Option<Seq<char>>,
    pub chart_type: Option<Seq<char>>,
    pub version: Seq<char>,
    pub kube_version: Option<Seq<char>>,
    pub api_version: Option<Seq<char>>,
    pub app_version: Option<Seq<char>>,
    pub home: Option<Seq<char>>,
    pub sources: Option<Seq<Seq<char>>>,
    pub keywords: Option<Seq<Seq<char>>>,
    pub maintainers: Option<Seq<ChartMaintainerV>>,
    pub annotations: Option<Map<Seq<char>, Seq<char>>>,
    pub dependencies: Option<Seq<ChartDependencyV>>,
    pub condition: Option<Seq<char>>,
    pub tags: Option<Seq<Seq<char>>>,
    pub deprecated: Option<bool>,
}

impl View for ChartInfo {
    type V = ChartInfoV;

    open spec fn view(&self) -> ChartInfoV {
        ChartInfoV {
            icon: self.icon.deep_view(),
            name: self.name@,
            description: self.description.deep_view(),
            chart_type: self.chart_type.deep_view(),
            version: self.version@,
            kube_version: self.kube_version.deep_view(),
            api_version: self.api_version.deep_view(),
            app_version: self.app_version.deep_view(),
            home: self.home.deep_view(),
            sources: self.sources.deep_view(),
            keywords: self.keywords.deep_view(),
            maintainers: self.maintainers.deep_view(),
            annotations: match self.annotations {
                Some(ps) => Some(pairs_map(ps@)),
                None => None,
            },
            dependencies: self.dependencies.deep_view(),
            condition: self.condition.deep_view(),
            tags: self.tags.deep_view(),
            deprecated: self.deprecated,
        }
    }
}

/// The aggregate a chart-details retrieval returns: decoded metadata, the
/// readme rendered to HTML, and the raw default values text.
#[derive(Debug, PartialEq, Eq)]
pub struct ChartDetails {
    pub info: ChartInfo,
    pub readme: String,
    pub values: String,
}

pub ghost struct ChartDetailsV {
    pub info: ChartInfoV,
    pub readme: Seq<char>,
    pub values: Seq<char>,
}

impl View for ChartDetails {
    type V = ChartDetailsV;

    open spec fn view(&self) -> ChartDetailsV {
        ChartDetailsV { info: self.info@, readme: self.readme@, values: self.values@ }
    }
}

/// The caller-supplied description of one chart installation.
#[derive(Debug, PartialEq, Eq)]
pub struct InstallChartRequest {
    pub name: String,
    pub chart_name: String,
    pub namespace: String,
    pub values: Option<String>,
}

pub ghost struct InstallChartRequestV {
    pub name: Seq<char>,
    pub chart_name: Seq<char>,
    pub namespace: Seq<char>,
    pub values: Option<Seq<char>>,
}

impl View for InstallChartRequest {
    type V = InstallChartRequestV;

    open spec fn view(&self) -> InstallChartRequestV {
        InstallChartRequestV {
            name: self.name@,
            chart_name: self.chart_name@,
            namespace: self.namespace@,
            values: self.values.deep_view(),
        }
    }
}

} // verus!
