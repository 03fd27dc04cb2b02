use helm_api::api::Api;
use helm_api::api::Error;
use helm_api::cmd::Cmd;
use helm_api::data::InstallChartRequest;
use helm_api::executor::Error as ExecError;
use helm_api::executor::Executor;
use helm_api::executor::InvocationRecord;
use helm_api::executor::ScriptedExecutor;
use helm_api::executor::ScriptedReply;
use helm_api::store::InMemoryValuesStore;

fn joined(log: &Vec<InvocationRecord>) -> String {
    let mut parts: Vec<String> = Vec::new();
    for rec in log.iter() {
        parts.push(rec.program.clone());
        for a in rec.args.iter() {
            parts.push(a.clone());
        }
    }
    parts.join(" ")
}

#[test]
fn should_get_helm_version() {
    let executor = ScriptedExecutor::new();
    let mut cmd = Cmd::new(executor);
    cmd.version().expect("Cannot get version");
    assert_eq!(joined(&cmd.executor.log), "helm version --template {{.Version}}")
}

#[test]
fn should_return_helm_version() {
    let executor = ScriptedExecutor::with_script(vec![ScriptedReply::Stdout(
        "v3.10.3".to_string(),
    )]);
    let version = Api::new(executor).version().unwrap();
    assert_eq!(version, "v3.10.3")
}

#[test]
fn should_return_helm_list() {
    let json = "[{\"name\":\"web\",\"namespace\":\"default\",\"revision\":\"1\",\
                 \"updated\":\"2023-05-01 10:15:30.123456 +0000 UTC\",\"status\":\"deployed\",\
                 \"chart\":\"nginx-1.0.0\",\"app_version\":\"1.25\"}]";
    let executor = ScriptedExecutor::with_script(vec![ScriptedReply::Stdout(json.to_string())]);
    let version = Api::new(executor).list().unwrap();
    println!("{:?}", version)
}

#[test]
fn version_is_trimmed() {
    let executor = ScriptedExecutor::with_script(vec![ScriptedReply::Stdout(
        "  v3.10.3\n".to_string(),
    )]);
    let version = Api::new(executor).version().unwrap();
    assert_eq!(version, "v3.10.3")
}

#[test]
fn rename_issues_probe_then_replace() {
    let executor = ScriptedExecutor::new();
    let mut api = Api::new(executor);
    api.update_repository("A".to_string(), "B".to_string(), "http://example.com".to_string())
        .unwrap();
    let log = &api.cmd.executor.log;
    assert_eq!(log.len(), 4);
    let tmp = log[0].args[2].clone();
    assert_eq!(tmp.len(), 36);
    assert_eq!(log[0].args, vec!["repo", "add", tmp.as_str(), "http://example.com"]);
    assert_eq!(log[1].args, vec!["repo", "remove", tmp.as_str()]);
    assert_eq!(log[2].args, vec!["repo", "remove", "A"]);
    assert_eq!(log[3].args, vec!["repo", "add", "B", "http://example.com"]);
}

#[test]
fn rename_stops_when_probe_fails() {
    let executor = ScriptedExecutor::with_script(vec![ScriptedReply::Stderr(
        "bad url".to_string(),
    )]);
    let mut api = Api::new(executor);
    let err = api
        .update_repository("A".to_string(), "B".to_string(), "http://example.com".to_string())
        .unwrap_err();
    assert_eq!(err, Error::SomethingWentWrong("bad url".to_string()));
    let log = &api.cmd.executor.log;
    assert_eq!(log.len(), 1);
    assert_eq!(log[0].args[0], "repo");
    assert_eq!(log[0].args[1], "add");
}

#[test]
fn nonzero_exit_surfaces_stderr_text() {
    let executor = ScriptedExecutor::with_script(vec![ScriptedReply::Stderr(
        "Error: no repo named missing found".to_string(),
    )]);
    let mut api = Api::new(executor);
    let err = api.delete_repository("missing".to_string()).unwrap_err();
    assert_eq!(
        err.into_message(),
        "Error: no repo named missing found".to_string()
    );
}

#[test]
fn install_with_values_writes_and_removes_file() {
    let executor = ScriptedExecutor::new();
    let mut api = Api::new(executor);
    let mut store = InMemoryValuesStore::new();
    let request = InstallChartRequest {
        name: "web".to_string(),
        chart_name: "repo/nginx".to_string(),
        namespace: "default".to_string(),
        values: Some("replicas: 2\n".to_string()),
    };
    api.install_chart(request, &mut store).unwrap();
    assert_eq!(store.writes.len(), 1);
    assert_eq!(store.writes[0].0, "repo_nginx_web.yaml");
    assert_eq!(store.writes[0].1, "replicas: 2\n");
    assert!(store.files.is_empty());
    let log = &api.cmd.executor.log;
    assert_eq!(log.len(), 1);
    assert_eq!(
        log[0].args,
        vec![
            "install",
            "web",
            "repo/nginx",
            "--namespace",
            "default",
            "--create-namespace",
            "-f",
            "repo_nginx_web.yaml"
        ]
    );
}

#[test]
fn install_without_values_never_touches_store() {
    let executor = ScriptedExecutor::new();
    let mut api = Api::new(executor);
    let mut store = InMemoryValuesStore::new();
    let request = InstallChartRequest {
        name: "web".to_string(),
        chart_name: "repo/nginx".to_string(),
        namespace: "default".to_string(),
        values: None,
    };
    api.install_chart(request, &mut store).unwrap();
    assert!(store.writes.is_empty());
    assert!(store.files.is_empty());
    let log = &api.cmd.executor.log;
    assert_eq!(log.len(), 1);
    assert_eq!(
        log[0].args,
        vec!["install", "web", "repo/nginx", "--namespace", "default", "--create-namespace"]
    );
    assert!(!log[0].args.contains(&"-f".to_string()));
}

#[test]
fn install_removes_file_when_install_fails() {
    let executor = ScriptedExecutor::with_script(vec![ScriptedReply::Stderr(
        "release exists".to_string(),
    )]);
    let mut api = Api::new(executor);
    let mut store = InMemoryValuesStore::new();
    let request = InstallChartRequest {
        name: "web".to_string(),
        chart_name: "repo/nginx".to_string(),
        namespace: "default".to_string(),
        values: Some("a: 1\n".to_string()),
    };
    let err = api.install_chart(request, &mut store).unwrap_err();
    assert_eq!(err, Error::SomethingWentWrong("release exists".to_string()));
    assert_eq!(store.writes.len(), 1);
    assert!(store.files.is_empty());
}

#[test]
fn chart_details_issues_three_invocations() {
    let chart_yaml = "name: nginx\nversion: 1.0.0\ndescription: a web server\n";
    let executor = ScriptedExecutor::with_script(vec![
        ScriptedReply::Stdout(chart_yaml.to_string()),
        ScriptedReply::Stdout("# Nginx\n".to_string()),
        ScriptedReply::Stdout("replicas: 1\n".to_string()),
    ]);
    let mut api = Api::new(executor);
    let details = api.get_chart_details("nginx".to_string()).unwrap();
    let log = &api.cmd.executor.log;
    assert_eq!(log.len(), 3);
    assert_eq!(log[0].args, vec!["show", "chart", "nginx"]);
    assert_eq!(log[1].args, vec!["show", "readme", "nginx"]);
    assert_eq!(log[2].args, vec!["show", "values", "nginx"]);
    assert_eq!(details.info.name, "nginx");
    assert_eq!(details.info.version, "1.0.0");
    assert_eq!(details.info.description, Some("a web server".to_string()));
    assert_eq!(details.readme, "<h1>Nginx</h1>\n");
    assert_eq!(details.values, "replicas: 1\n");
}

#[test]
fn chart_details_fails_when_readme_fails() {
    let chart_yaml = "name: nginx\nversion: 1.0.0\n";
    let executor = ScriptedExecutor::with_script(vec![
        ScriptedReply::Stdout(chart_yaml.to_string()),
        ScriptedReply::Stderr("no readme".to_string()),
    ]);
    let mut api = Api::new(executor);
    let err = api.get_chart_details("nginx".to_string()).unwrap_err();
    assert_eq!(err, Error::SomethingWentWrong("no readme".to_string()));
    assert_eq!(api.cmd.executor.log.len(), 2);
}

#[test]
fn get_values_hands_output_through() {
    let executor = ScriptedExecutor::with_script(vec![ScriptedReply::Stdout(
        "a: 1\n".to_string(),
    )]);
    let mut api = Api::new(executor);
    let values = api.get_values("web".to_string(), "default".to_string()).unwrap();
    assert_eq!(values, "a: 1\n");
    assert_eq!(
        api.cmd.executor.log[0].args,
        vec!["get", "values", "web", "-n", "default", "-o", "yaml"]
    );
}

#[test]
fn search_uses_positional_arguments() {
    let executor = ScriptedExecutor::with_script(vec![ScriptedReply::Stdout("[]".to_string())]);
    let mut api = Api::new(executor);
    let items = api.find_charts_in_repo("nginx".to_string()).unwrap();
    assert!(items.is_empty());
    assert_eq!(
        api.cmd.executor.log[0].args,
        vec!["-o", "json", "search", "repo", "nginx"]
    );
}

#[test]
fn refresh_and_add_use_expected_arguments() {
    let executor = ScriptedExecutor::new();
    let mut api = Api::new(executor);
    api.refresh_repositories().unwrap();
    api.add_repository("stable".to_string(), "https://charts.example.com".to_string()).unwrap();
    api.uninstall_chart("web".to_string(), "default".to_string()).unwrap();
    let log = &api.cmd.executor.log;
    assert_eq!(log[0].args, vec!["repo", "update"]);
    assert_eq!(log[1].args, vec!["repo", "add", "stable", "https://charts.example.com"]);
    assert_eq!(log[2].args, vec!["uninstall", "web", "-n", "default"]);
}

#[test]
fn execute_without_program_fails() {
    let mut executor = ScriptedExecutor::new();
    executor.arg("version".to_string());
    assert_eq!(executor.execute(), Err(ExecError::NoCommand));
}

#[test]
fn executor_is_reusable_after_a_run() {
    let executor = ScriptedExecutor::new();
    let mut api = Api::new(executor);
    api.refresh_repositories().unwrap();
    api.delete_repository("stable".to_string()).unwrap();
    let log = &api.cmd.executor.log;
    assert_eq!(log.len(), 2);
    assert_eq!(log[0].args, vec!["repo", "update"]);
    assert_eq!(log[1].args, vec!["repo", "remove", "stable"]);
}
