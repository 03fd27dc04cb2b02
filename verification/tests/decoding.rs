use helm_api::api::Api;
use helm_api::chart::chart_info_from_yaml;
use helm_api::data::Timestamp;
use helm_api::decode::releases_from_text;
use helm_api::decode::repos_from_text;
use helm_api::executor::ScriptedExecutor;
use helm_api::executor::ScriptedReply;

#[test]
fn repos_decode_keeps_name_and_url() {
    let json = "[{\"name\":\"stable\",\"url\":\"https://charts.example.com\"},\
                 {\"name\":\"edge\",\"url\":\"https://edge.example.com\"}]";
    let repos = repos_from_text(json).unwrap();
    assert_eq!(repos.len(), 2);
    assert_eq!(repos[0].name, "stable");
    assert_eq!(repos[0].url, "https://charts.example.com");
    assert_eq!(repos[1].name, "edge");
    assert_eq!(repos[1].url, "https://edge.example.com");
}

#[test]
fn repos_decode_is_all_or_nothing() {
    let json = "[{\"name\":\"stable\",\"url\":\"https://charts.example.com\"},{\"name\":\"bad\"}]";
    assert!(repos_from_text(json).is_none());
    assert!(repos_from_text("not json").is_none());
    assert!(repos_from_text("{\"name\":\"x\",\"url\":\"y\"}").is_none());
}

#[test]
fn repos_decode_failure_reports_message() {
    let executor = ScriptedExecutor::with_script(vec![ScriptedReply::Stdout(
        "not json".to_string(),
    )]);
    let mut api = Api::new(executor);
    let err = api.repos().unwrap_err();
    assert_eq!(err.into_message(), "cannot decode repository list".to_string());
}

#[test]
fn release_timestamp_decodes_custom_layout() {
    let json = "[{\"name\":\"web\",\"namespace\":\"default\",\"revision\":\"2\",\
                 \"updated\":\"2023-05-01 10:15:30.123456 +0000 UTC\",\"status\":\"deployed\",\
                 \"chart\":\"nginx-1.0.0\",\"app_version\":\"1.25\"}]";
    let releases = releases_from_text(json).unwrap();
    assert_eq!(releases.len(), 1);
    let updated = releases[0].updated;
    let expected = Timestamp {
        year: 2023,
        month: 5,
        day: 1,
        hour: 10,
        minute: 15,
        second: 30,
        nanosecond: 123456,
        offset_seconds: 0,
    };
    assert_eq!(updated, expected);
    assert_eq!(releases[0].revision, "2");
    assert_eq!(releases[0].status, "deployed");
}

#[test]
fn release_with_malformed_timestamp_is_rejected() {
    let json = "[{\"name\":\"web\",\"namespace\":\"default\",\"revision\":\"2\",\
                 \"updated\":\"2023-05-01T10:15:30+00:00\",\"status\":\"deployed\",\
                 \"chart\":\"nginx-1.0.0\",\"app_version\":\"1.25\"}]";
    assert!(releases_from_text(json).is_none());
}

#[test]
fn chart_info_decodes_required_and_optional_fields() {
    let yaml = "name: nginx\n\
                version: 1.2.3\n\
                apiVersion: v2\n\
                appVersion: \"1.25\"\n\
                type: application\n\
                home: https://nginx.org\n\
                icon: https://nginx.org/icon.png\n\
                keywords:\n  - web\n  - proxy\n\
                sources:\n  - https://github.com/nginx\n\
                deprecated: false\n\
                annotations:\n  category: Infrastructure\n  licenses: Apache-2.0\n\
                maintainers:\n  - name: alex\n    email: alex@example.com\n\
                dependencies:\n  - name: common\n    repository: https://charts.example.com\n    version: 2.0.0\n    condition: common.enabled\n    tags:\n      - base\n    enabled: true\n    alias: lib\n";
    let info = chart_info_from_yaml(yaml).unwrap();
    assert_eq!(info.name, "nginx");
    assert_eq!(info.version, "1.2.3");
    assert_eq!(info.api_version, Some("v2".to_string()));
    assert_eq!(info.app_version, Some("1.25".to_string()));
    assert_eq!(info.chart_type, Some("application".to_string()));
    assert_eq!(info.home, Some("https://nginx.org".to_string()));
    assert_eq!(info.icon, Some("https://nginx.org/icon.png".to_string()));
    assert_eq!(info.keywords, Some(vec!["web".to_string(), "proxy".to_string()]));
    assert_eq!(info.sources, Some(vec!["https://github.com/nginx".to_string()]));
    assert_eq!(info.deprecated, Some(false));
    let annotations = info.annotations.unwrap();
    assert_eq!(annotations.len(), 2);
    assert!(annotations.contains(&("category".to_string(), "Infrastructure".to_string())));
    assert!(annotations.contains(&("licenses".to_string(), "Apache-2.0".to_string())));
    let maintainers = info.maintainers.unwrap();
    assert_eq!(maintainers.len(), 1);
    assert_eq!(maintainers[0].name, "alex");
    assert_eq!(maintainers[0].email, Some("alex@example.com".to_string()));
    assert_eq!(maintainers[0].url, None);
    let dependencies = info.dependencies.unwrap();
    assert_eq!(dependencies.len(), 1);
    assert_eq!(dependencies[0].name, "common");
    assert_eq!(dependencies[0].repository, "https://charts.example.com");
    assert_eq!(dependencies[0].version, "2.0.0");
    assert_eq!(dependencies[0].condition, Some("common.enabled".to_string()));
    assert_eq!(dependencies[0].tags, Some(vec!["base".to_string()]));
    assert_eq!(dependencies[0].enabled, Some(true));
    assert_eq!(dependencies[0].alias, Some("lib".to_string()));
}

#[test]
fn chart_info_requires_name_and_version() {
    assert!(chart_info_from_yaml("version: 1.0.0\n").is_none());
    assert!(chart_info_from_yaml("name: nginx\n").is_none());
    assert!(chart_info_from_yaml("name: nginx\nversion: 1.0.0\nicon: [1, 2]\n").is_none());
    assert!(chart_info_from_yaml(": not yaml : :\n  -").is_none());
}

#[test]
fn chart_metadata_decode_failure_reports_message() {
    let executor = ScriptedExecutor::with_script(vec![ScriptedReply::Stdout(
        "- just\n- a\n- list\n".to_string(),
    )]);
    let mut api = Api::new(executor);
    let err = api.get_chart_details("nginx".to_string()).unwrap_err();
    assert_eq!(err.into_message(), "cannot decode chart metadata".to_string());
    assert_eq!(api.cmd.executor.log.len(), 1);
}

#[test]
fn chart_items_decode_keeps_all_fields() {
    let json = "[{\"name\":\"stable/nginx\",\"version\":\"1.2.3\",\"app_version\":\"1.25\",\
                 \"description\":\"a web server\"}]";
    let executor = ScriptedExecutor::with_script(vec![ScriptedReply::Stdout(json.to_string())]);
    let mut api = Api::new(executor);
    let items = api.find_charts_in_repo("nginx".to_string()).unwrap();
    assert_eq!(items.len(), 1);
    assert_eq!(items[0].name, "stable/nginx");
    assert_eq!(items[0].version, "1.2.3");
    assert_eq!(items[0].app_version, "1.25");
    assert_eq!(items[0].description, "a web server");
}

#[test]
fn empty_lists_decode_to_empty() {
    assert_eq!(repos_from_text("[]").unwrap().len(), 0);
    assert_eq!(releases_from_text("[]").unwrap().len(), 0);
}
